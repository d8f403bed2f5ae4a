use vstd::prelude::*;

verus! {

/// Size of the buffer the pump reads into.
pub const READ_BUFFER_SIZE: usize = 4096;

/// What one read of the terminal's output stream gave.
pub enum ReadOutcome {
    /// The read filled the first `n` bytes of the buffer.
    Filled(usize),
    /// The read failed.
    Failed,
}

/// What the pump does after a read.
pub enum PumpAction {
    /// Hand this chunk to the delivery channel, then ask the renderer to repaint.
    Deliver(Vec<u8>),
    /// A transient failure: wait briefly and read again.
    Retry,
    /// End of stream: the shell has exited and the pump stops.
    Stop,
}

/// The pump's decision after reading into `buf`: a read of `n > 0` bytes delivers exactly
/// the filled part, a read of nothing means end of stream, and a failure is retried.
pub fn on_read(buf: &Vec<u8>, outcome: ReadOutcome) -> (r: PumpAction)
    requires
        outcome matches ReadOutcome::Filled(n) ==> n <= buf@.len(),
    ensures
        match outcome {
            ReadOutcome::Filled(n) => if n == 0 {
                r is Stop
            } else {
                r matches PumpAction::Deliver(c) && c@ == buf@.subrange(0, n as int)
            },
            ReadOutcome::Failed => r is Retry,
        },
{
    match outcome {
        ReadOutcome::Filled(n) => {
            if n == 0 {
                PumpAction::Stop
            } else {
                let mut chunk: Vec<u8> = Vec::new();
                let mut i: usize = 0;
                while i < n
                    invariant
                        n <= buf@.len(),
                        i <= n,
                        chunk@ == buf@.subrange(0, i as int),
                    decreases n - i,
                {
                    chunk.push(buf[i]);
                    i = i + 1;
                    assert(chunk@ =~= buf@.subrange(0, i as int));
                }
                PumpAction::Deliver(chunk)
            }
        },
        ReadOutcome::Failed => PumpAction::Retry,
    }
}

} // verus!
