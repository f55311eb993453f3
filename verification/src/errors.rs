use vstd::prelude::*;

verus! {

/// The failures a tracer operation can surface to its caller.
///
/// Transient conditions (a stale file handle, a directory that vanished
/// between creation and marking, a lagging subscriber) are handled locally by
/// the adapters and never appear here.
#[derive(Clone, Debug, PartialEq, Eq)]
pub enum KanshiError {
    /// `watch` or `start` was called while the event stream is already active.
    ListenerStartedError,
    /// The operation was attempted after cancellation, or the adapter found
    /// every subscriber gone in a way it treats as terminal.
    StreamClosedError,
    /// A kernel or path-resolution failure during setup or live marking.
    FileSystemError(String),
}

} // verus!
