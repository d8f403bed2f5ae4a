use vstd::prelude::*;
use vstd::string::*;
use vstd::utf8::encode_utf8;

verus! {

/// One keyboard event of a frame, as the host renderer reports it.
pub enum InputEvent {
    /// The Enter key.
    Enter,
    /// Text typed by the user.
    Text(String),
    /// Any other event; nothing is forwarded for it.
    Other,
}

/// The bytes written to the shell for one event: a newline for Enter, the UTF-8
/// encoding of typed text, nothing otherwise.
pub open spec fn event_bytes(e: InputEvent) -> Seq<u8> {
    match e {
        InputEvent::Enter => seq![10u8],
        InputEvent::Text(s) => encode_utf8(s@),
        InputEvent::Other => Seq::empty(),
    }
}

/// The bytes written to the shell for a frame's events, in event order.
pub open spec fn input_bytes(events: Seq<InputEvent>) -> Seq<u8>
    decreases events.len(),
{
    if events.len() == 0 {
        Seq::empty()
    } else {
        input_bytes(events.drop_last()) + event_bytes(events.last())
    }
}

/// The bytes to write to the shell for one event.
pub fn encode_event(e: &InputEvent) -> (r: Vec<u8>)
    ensures
        r@ == event_bytes(*e),
{
    match e {
        InputEvent::Enter => {
            let mut v: Vec<u8> = Vec::new();
            v.push(10u8);
            assert(v@ =~= seq![10u8]);
            v
        },
        InputEvent::Text(s) => s.as_str().as_bytes_vec(),
        InputEvent::Other => {
            let v: Vec<u8> = Vec::new();
            assert(v@ =~= Seq::<u8>::empty());
            v
        },
    }
}

/// The bytes to write to the shell for a frame's events, in event order.
pub fn forward_input(events: &Vec<InputEvent>) -> (r: Vec<u8>)
    ensures
        r@ == input_bytes(events@),
{
    let mut out: Vec<u8> = Vec::new();
    let mut i: usize = 0;
    while i < events.len()
        invariant
            i <= events@.len(),
            out@ == input_bytes(events@.subrange(0, i as int)),
        decreases events@.len() - i,
    {
        let mut bytes = encode_event(&events[i]);
        proof {
            let pre = events@.subrange(0, i as int + 1);
            assert(pre.drop_last() =~= events@.subrange(0, i as int));
            assert(pre.last() == events@[i as int]);
        }
        out.append(&mut bytes);
        i = i + 1;
    }
    assert(events@.subrange(0, events@.len() as int) =~= events@);
    out
}

} // verus!
