//! How the outcome of a call reaches the caller.

use vstd::prelude::*;

verus! {

/// Why a call failed, by the kind of exception that it becomes.
#[derive(Debug, PartialEq, Eq)]
pub enum CallError {
    /// The arguments contradict each other.
    TypeError(String),
    /// An argument has a value that cannot be used.
    ValueError(String),
    /// The portal, or the state of the session, stands in the way.
    RuntimeError(String),
}

/// The kind and the characters of a `CallError`.
pub ghost enum ErrorView {
    TypeError(Seq<char>),
    ValueError(Seq<char>),
    RuntimeError(Seq<char>),
}

impl View for CallError {
    type V = ErrorView;

    open spec fn view(&self) -> ErrorView {
        match self {
            CallError::TypeError(text) => ErrorView::TypeError(text@),
            CallError::ValueError(text) => ErrorView::ValueError(text@),
            CallError::RuntimeError(text) => ErrorView::RuntimeError(text@),
        }
    }
}

/// What became of a command that was handed to the portal task.
#[derive(Debug)]
pub enum Delivery<R> {
    /// The task is gone: the command could not be sent.
    NotRunning,
    /// The task went away before it answered.
    Dropped,
    /// The task's answer.
    Answered(Result<R, String>),
}

/// Turns what became of a command into the result of the call.
pub fn reply_result<R>(delivery: Delivery<R>) -> (r: Result<R, CallError>)
    ensures
        match delivery {
            Delivery::NotRunning => r matches Err(e) && e@ == ErrorView::RuntimeError(
                "portal task not running"@,
            ),
            Delivery::Dropped => r matches Err(e) && e@ == ErrorView::RuntimeError(
                "portal task dropped reply"@,
            ),
            Delivery::Answered(Ok(value)) => r == Ok::<R, CallError>(value),
            Delivery::Answered(Err(reason)) => r matches Err(e) && e@ == ErrorView::RuntimeError(
                reason@,
            ),
        },
{
    match delivery {
        Delivery::NotRunning => Err(CallError::RuntimeError("portal task not running".to_string())),
        Delivery::Dropped => Err(CallError::RuntimeError("portal task dropped reply".to_string())),
        Delivery::Answered(Ok(value)) => Ok(value),
        Delivery::Answered(Err(reason)) => Err(CallError::RuntimeError(reason)),
    }
}

/// An error keeps its kind and its text.
pub proof fn law_errors_are_read_verbatim(text: String)
    ensures
        CallError::TypeError(text)@ == ErrorView::TypeError(text@),
        CallError::ValueError(text)@ == ErrorView::ValueError(text@),
        CallError::RuntimeError(text)@ == ErrorView::RuntimeError(text@),
{
}

} // verus!
