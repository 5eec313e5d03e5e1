use vstd::prelude::*;

verus! {

/// The error taxonomy of the shell. All three kinds are fatal to the
/// run loop; none is retried.
#[derive(Debug)]
pub enum AppError {
    /// The producer could not enqueue an event because the consumer
    /// side of the queue was gone. Carries a description of the lost
    /// event.
    SendError(String),
    /// The consumer found the event queue permanently drained and
    /// closed.
    EventStreamClosed,
    /// The display backend failed to render. Carries the backend's
    /// description of the failure.
    DrawError(String),
}

pub type AppResult<T> = Result<T, AppError>;

} // verus!
