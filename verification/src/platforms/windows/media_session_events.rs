//! How the callers of the media transport worker read its answers.
use vstd::prelude::*;
use crate::error::NativeError;

verus! {

/// How long a caller waits for the worker, in milliseconds.
pub const MEDIA_COMMAND_TIMEOUT_MS: u64 = 10000;

/// What came back from the worker for one command.
pub enum Reply<T> {
    /// The worker answered.
    Answered(Result<T, NativeError>),
    /// No answer came within the timeout.
    TimedOut,
    /// The worker dropped the command without answering.
    WorkerStopped,
}

/// The error of a command that could not be handed to the worker.
pub fn worker_unavailable() -> (e: NativeError)
    ensures
        e matches NativeError::MediaSession(m) && m@ == "Media transport worker is unavailable"@,
{
    NativeError::MediaSession("Media transport worker is unavailable".to_owned())
}

/// The result of a command: the worker's answer, or a media session error
/// that says whether the wait timed out or the worker stopped.
pub fn receive_response<T>(reply: Reply<T>) -> (r: Result<T, NativeError>)
    ensures
        match reply {
            Reply::Answered(x) => r == x,
            Reply::TimedOut => r matches Err(NativeError::MediaSession(m)) && m@ == "Media transport operation timed out"@,
            Reply::WorkerStopped => r matches Err(NativeError::MediaSession(m)) && m@ == "Media transport worker stopped"@,
        },
{
    match reply {
        Reply::Answered(x) => x,
        Reply::TimedOut => Err(NativeError::MediaSession("Media transport operation timed out".to_owned())),
        Reply::WorkerStopped => Err(NativeError::MediaSession("Media transport worker stopped".to_owned())),
    }
}

} // verus!
