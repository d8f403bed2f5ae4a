use vstd::prelude::*;

use crate::channel::{after_receive, after_send};
use crate::driver::resized;

verus! {

/// The pump offers the oldest chunk it holds: the channel takes it when there is room,
/// otherwise the pump keeps it. Gives the new (queue, held chunks).
pub open spec fn pump_offer(queue: Seq<Seq<u8>>, capacity: nat, held: Seq<Seq<u8>>) -> (
    Seq<Seq<u8>>,
    Seq<Seq<u8>>,
) {
    if held.len() == 0 {
        (queue, held)
    } else {
        (
            after_send(queue, capacity, held[0]),
            if queue.len() < capacity {
                held.drop_first()
            } else {
                held
            },
        )
    }
}

/// The state after `steps` offers by the pump while the driver takes nothing.
pub open spec fn paused(queue: Seq<Seq<u8>>, capacity: nat, held: Seq<Seq<u8>>, steps: nat) -> (
    Seq<Seq<u8>>,
    Seq<Seq<u8>>,
)
    decreases steps,
{
    if steps == 0 {
        (queue, held)
    } else {
        let (q, h) = pump_offer(queue, capacity, held);
        paused(q, capacity, h, (steps - 1) as nat)
    }
}

/// The chunks applied to the grid after `frames` rounds in which the pump offers once
/// and the driver then takes at most one chunk, starting from `applied`.
pub open spec fn resumed(
    queue: Seq<Seq<u8>>,
    capacity: nat,
    held: Seq<Seq<u8>>,
    applied: Seq<Seq<u8>>,
    frames: nat,
) -> Seq<Seq<u8>>
    decreases frames,
{
    if frames == 0 {
        applied
    } else {
        let (q, h) = pump_offer(queue, capacity, held);
        let taken = if q.len() > 0 {
            applied.push(q[0])
        } else {
            applied
        };
        resumed(after_receive(q), capacity, h, taken, (frames - 1) as nat)
    }
}

proof fn lemma_paused_keeps_chunks(
    queue: Seq<Seq<u8>>,
    capacity: nat,
    held: Seq<Seq<u8>>,
    steps: nat,
)
    requires
        queue.len() <= capacity,
    ensures
        paused(queue, capacity, held, steps).0 + paused(queue, capacity, held, steps).1 == queue
            + held,
        paused(queue, capacity, held, steps).0.len() <= capacity,
    decreases steps,
{
    if steps > 0 {
        let (q, h) = pump_offer(queue, capacity, held);
        if held.len() > 0 && queue.len() < capacity {
            assert(q + h =~= queue + held);
        }
        lemma_paused_keeps_chunks(q, capacity, h, (steps - 1) as nat);
    }
}

proof fn lemma_resumed_applies_all(
    queue: Seq<Seq<u8>>,
    capacity: nat,
    held: Seq<Seq<u8>>,
    applied: Seq<Seq<u8>>,
    frames: nat,
)
    requires
        0 < capacity,
        queue.len() <= capacity,
        frames >= queue.len() + held.len(),
    ensures
        resumed(queue, capacity, held, applied, frames) == applied + queue + held,
    decreases frames,
{
    if frames == 0 {
        assert(applied + queue + held =~= applied);
    } else {
        let (q, h) = pump_offer(queue, capacity, held);
        assert(q + h =~= queue + held);
        assert(q.len() <= capacity);
        assert(queue.len() + held.len() > 0 ==> q.len() > 0);
        let taken = if q.len() > 0 {
            applied.push(q[0])
        } else {
            applied
        };
        let rest = after_receive(q);
        if q.len() > 0 {
            assert(taken + rest =~= applied + q);
        } else {
            assert(rest =~= q);
        }
        lemma_resumed_applies_all(rest, capacity, h, taken, (frames - 1) as nat);
        assert(taken + rest + h =~= applied + queue + held);
    }
}

/// No data loss under backpressure: whatever chunks the pump produced while the driver
/// was paused, and however many of them it managed to offer meanwhile, once the driver
/// resumes and takes one chunk per frame, after as many frames as there are chunks
/// exactly those chunks have been applied, in the order they were produced.
pub proof fn lemma_no_loss_under_backpressure(
    chunks: Seq<Seq<u8>>,
    capacity: nat,
    paused_steps: nat,
    frames: nat,
)
    requires
        0 < capacity,
        frames >= chunks.len(),
    ensures
        ({
            let (q, h) = paused(Seq::empty(), capacity, chunks, paused_steps);
            resumed(q, capacity, h, Seq::empty(), frames) == chunks
        }),
{
    let (q, h) = paused(Seq::empty(), capacity, chunks, paused_steps);
    lemma_paused_keeps_chunks(Seq::empty(), capacity, chunks, paused_steps);
    assert(Seq::<Seq<u8>>::empty() + chunks =~= chunks);
    lemma_resumed_applies_all(q, capacity, h, Seq::empty(), frames);
    assert(Seq::<Seq<u8>>::empty() + q + h =~= chunks);
}

/// Chunks come out of the channel in the order they were sent: two chunks sent to a
/// channel with room for both queue up behind what was there, first before second, and
/// from an empty channel the first is received before the second.
pub proof fn lemma_fifo_order(queue: Seq<Seq<u8>>, capacity: nat, first: Seq<u8>, second: Seq<u8>)
    requires
        queue.len() + 2 <= capacity,
    ensures
        after_send(after_send(queue, capacity, first), capacity, second) == queue.push(first).push(
            second,
        ),
        queue.len() == 0 ==> {
            let sent = after_send(after_send(queue, capacity, first), capacity, second);
            &&& sent[0] == first
            &&& after_receive(sent) == seq![second]
        },
{
    if queue.len() == 0 {
        let sent = after_send(after_send(queue, capacity, first), capacity, second);
        assert(after_receive(sent) =~= seq![second]);
    }
}

/// Resizing twice to the same dimensions leaves the driver as resizing once does, and
/// the second resize asks nothing of the session.
pub proof fn lemma_resize_idempotent(dims: Option<(u16, u16)>, rows: u16, cols: u16)
    ensures
        resized(resized(dims, rows, cols).0, rows, cols).0 == resized(dims, rows, cols).0,
        !resized(resized(dims, rows, cols).0, rows, cols).1,
{
}

} // verus!
