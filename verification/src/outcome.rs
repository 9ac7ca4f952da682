//! What a command hands back to its caller: a reply, or the reason it failed.

use vstd::prelude::*;

verus! {

/// The success value of a command.
#[derive(Debug, PartialEq, Eq)]
pub enum Reply {
    /// Success without a value: what the window commands give.
    Unit,
    /// Success with a text: what the echo command gives.
    Text(String),
}

/// A [`Reply`] as contracts see it.
pub enum ReplyView {
    Unit,
    Text(Seq<char>),
}

impl View for Reply {
    type V = ReplyView;

    open spec fn view(&self) -> ReplyView {
        match self {
            Reply::Unit => ReplyView::Unit,
            Reply::Text(text) => ReplyView::Text(text@),
        }
    }
}

/// How a missing window is described to the caller.
pub const WINDOW_NOT_FOUND: &'static str = "Main window not found";

/// Why a command failed. Neither kind is fatal: both travel back to the
/// caller, who owns any decision to try again.
#[derive(Debug, PartialEq, Eq)]
pub enum CommandError {
    /// No window is registered under the label that was asked for.
    WindowNotFound,
    /// The window was there, and the operating system refused the operation.
    /// The text is the system's own description of the failure.
    OperationFailed(String),
}

/// A [`CommandError`] as contracts see it.
pub enum CommandErrorView {
    WindowNotFound,
    OperationFailed(Seq<char>),
}

impl View for CommandError {
    type V = CommandErrorView;

    open spec fn view(&self) -> CommandErrorView {
        match self {
            CommandError::WindowNotFound => CommandErrorView::WindowNotFound,
            CommandError::OperationFailed(detail) => CommandErrorView::OperationFailed(detail@),
        }
    }
}

impl CommandErrorView {
    /// The description that the caller gets to read: a fixed sentence for a
    /// missing window, the system's description unchanged for a failed
    /// operation.
    pub open spec fn message(self) -> Seq<char> {
        match self {
            CommandErrorView::WindowNotFound => WINDOW_NOT_FOUND@,
            CommandErrorView::OperationFailed(detail) => detail,
        }
    }
}

impl CommandError {
    /// The description of this error for the caller.
    pub fn message(&self) -> (text: String)
        ensures
            text@ == self@.message(),
    {
        match self {
            CommandError::WindowNotFound => WINDOW_NOT_FOUND.to_string(),
            CommandError::OperationFailed(detail) => detail.clone(),
        }
    }
}

/// The result of a command as contracts see it.
pub open spec fn result_view(result: Result<Reply, CommandError>) -> Result<
    ReplyView,
    CommandErrorView,
> {
    match result {
        Ok(reply) => Ok(reply@),
        Err(error) => Err(error@),
    }
}

/// What crosses the transport for a result: the reply as it is, an error as
/// its description.
pub open spec fn response_of(result: Result<ReplyView, CommandErrorView>) -> Result<
    ReplyView,
    Seq<char>,
> {
    match result {
        Ok(reply) => Ok(reply),
        Err(error) => Err(error.message()),
    }
}

/// A response as contracts see it.
pub open spec fn response_view(response: Result<Reply, String>) -> Result<ReplyView, Seq<char>> {
    match response {
        Ok(reply) => Ok(reply@),
        Err(description) => Err(description@),
    }
}

/// Turns the result of a command into the response that crosses the
/// transport. This is the one place where an error becomes plain text.
pub fn respond(result: Result<Reply, CommandError>) -> (response: Result<Reply, String>)
    ensures
        response_view(response) == response_of(result_view(result)),
{
    match result {
        Ok(reply) => Ok(reply),
        Err(error) => Err(error.message()),
    }
}

} // verus!
