use std::collections::VecDeque;
use vstd::prelude::*;

verus! {

/// Largest number of chunks the delivery channel holds before the producer must wait.
pub const CHANNEL_CAPACITY: usize = 100;

/// The queue after offering `chunk`: appended when there is room, unchanged when full.
pub open spec fn after_send(queue: Seq<Seq<u8>>, capacity: nat, chunk: Seq<u8>) -> Seq<Seq<u8>> {
    if queue.len() < capacity {
        queue.push(chunk)
    } else {
        queue
    }
}

/// The queue after one receive: the oldest chunk removed, if there is one.
pub open spec fn after_receive(queue: Seq<Seq<u8>>) -> Seq<Seq<u8>> {
    if queue.len() > 0 {
        queue.drop_first()
    } else {
        queue
    }
}

/// Bounded first-in first-out hand-off of output chunks from the pump to the driver.
///
/// A chunk that does not fit is handed back to the sender rather than dropped: the
/// sender keeps it and offers it again once the receiver has made room.
pub struct DeliveryChannel {
    queue: VecDeque<Vec<u8>>,
    capacity: usize,
}

impl View for DeliveryChannel {
    type V = Seq<Seq<u8>>;

    /// The pending chunks, oldest first.
    closed spec fn view(&self) -> Seq<Seq<u8>> {
        self.queue@.map_values(|c: Vec<u8>| c@)
    }
}

impl DeliveryChannel {
    /// The bound this channel was created with.
    pub closed spec fn spec_capacity(&self) -> nat {
        self.capacity as nat
    }

    /// The channel never holds more chunks than its bound, and the bound is positive.
    pub open spec fn wf(&self) -> bool {
        &&& 0 < self.spec_capacity()
        &&& self@.len() <= self.spec_capacity()
    }

    /// An empty channel holding at most `capacity` chunks.
    pub fn with_capacity(capacity: usize) -> (r: Self)
        requires
            capacity > 0,
        ensures
            r.wf(),
            r@ == Seq::<Seq<u8>>::empty(),
            r.spec_capacity() == capacity,
    {
        let r = DeliveryChannel { queue: VecDeque::new(), capacity };
        assert(r@ =~= Seq::<Seq<u8>>::empty());
        r
    }

    /// An empty channel with the default bound.
    pub fn new() -> (r: Self)
        ensures
            r.wf(),
            r@ == Seq::<Seq<u8>>::empty(),
            r.spec_capacity() == CHANNEL_CAPACITY,
    {
        Self::with_capacity(CHANNEL_CAPACITY)
    }

    pub fn capacity(&self) -> (r: usize)
        ensures
            r == self.spec_capacity(),
    {
        self.capacity
    }

    pub fn len(&self) -> (r: usize)
        ensures
            r == self@.len(),
    {
        self.queue.len()
    }

    pub fn is_empty(&self) -> (r: bool)
        ensures
            r == (self@.len() == 0),
    {
        self.queue.len() == 0
    }

    /// Whether a sender would have to wait.
    pub fn is_full(&self) -> (r: bool)
        requires
            self.wf(),
        ensures
            r == (self@.len() == self.spec_capacity()),
    {
        self.queue.len() >= self.capacity
    }

    /// Offers one chunk. It is accepted at the back when there is room; otherwise it is
    /// returned unchanged and the channel is left as it was.
    pub fn try_send(&mut self, chunk: Vec<u8>) -> (r: Result<(), Vec<u8>>)
        requires
            old(self).wf(),
        ensures
            final(self).wf(),
            final(self).spec_capacity() == old(self).spec_capacity(),
            final(self)@ == after_send(old(self)@, old(self).spec_capacity(), chunk@),
            r is Ok <==> old(self)@.len() < old(self).spec_capacity(),
            r matches Err(back) ==> back@ == chunk@,
    {
        if self.queue.len() < self.capacity {
            let ghost before = self.queue@;
            self.queue.push_back(chunk);
            proof {
                assert(self.queue@ == before.push(chunk));
                assert(self@ =~= after_send(old(self)@, old(self).spec_capacity(), chunk@));
            }
            Ok(())
        } else {
            Err(chunk)
        }
    }

    /// Takes the oldest chunk, if any, without waiting.
    pub fn try_receive(&mut self) -> (r: Option<Vec<u8>>)
        requires
            old(self).wf(),
        ensures
            final(self).wf(),
            final(self).spec_capacity() == old(self).spec_capacity(),
            final(self)@ == after_receive(old(self)@),
            r is None <==> old(self)@.len() == 0,
            r matches Some(c) ==> c@ == old(self)@[0],
    {
        let r = self.queue.pop_front();
        proof {
            assert(self@ =~= after_receive(old(self)@));
        }
        r
    }
}

} // verus!
