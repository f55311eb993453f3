use vstd::prelude::*;

use crate::events::FileSystemEvent;

verus! {

/// Capacity of the broadcast channel that fans events out to subscribers.
/// Subscribers that fall behind by more than this observe a lag signal and
/// lose the overwritten events instead of backpressuring the adapter.
pub const BROADCAST_CAPACITY: usize = 32;

/// What one attempt to receive from the broadcast channel produced.
#[derive(Clone, Debug, PartialEq, Eq)]
pub enum RecvOutcome {
    /// The channel handed over the next event.
    Event(FileSystemEvent),
    /// Every sender is gone and the channel is drained.
    Closed,
    /// The subscriber fell behind and the given number of events were
    /// skipped over.
    Lagged(u64),
}

/// What the lazy event sequence does next.
#[derive(Clone, Debug, PartialEq, Eq)]
pub enum StreamStep {
    /// Hand the event to the subscriber.
    Yield(FileSystemEvent),
    /// Produce nothing this round and receive again (lag is recovered
    /// silently; the stream must not end on it).
    Skip,
    /// End the sequence.
    End,
}

/// One step of the stream projection behind `get_events_stream`: given
/// whether cancellation has won the race and what the receive produced,
/// decide what the lazy sequence does.
///
/// Cancellation always ends the sequence, so a subscriber observes
/// end-of-stream promptly once the tracer is closed; a closed channel ends
/// it as well; lag is skipped; everything else is yielded.
pub fn stream_step(cancelled: bool, recv: RecvOutcome) -> (step: StreamStep)
    ensures
        cancelled ==> step is End,
        !cancelled ==> (match recv {
            RecvOutcome::Event(e) => step == StreamStep::Yield(e),
            RecvOutcome::Closed => step == StreamStep::End,
            RecvOutcome::Lagged(_) => step == StreamStep::Skip,
        }),
{
    if cancelled {
        StreamStep::End
    } else {
        match recv {
            RecvOutcome::Event(e) => StreamStep::Yield(e),
            RecvOutcome::Closed => StreamStep::End,
            RecvOutcome::Lagged(_) => StreamStep::Skip,
        }
    }
}

} // verus!
