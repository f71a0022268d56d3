//! What an operation can fail with, and what waiting under a deadline can end with.
use vstd::prelude::*;

verus! {

/// The reasons for which an operation fails.
#[derive(Debug)]
pub enum Error {
    /// The operation was refused because the connection is down.
    Disconnected,
    /// The operation did not finish before its deadline.
    Timeout(String),
    /// The socket failed.
    IoError(String),
    /// Something happened that the protocol does not foresee.
    Unexpected(String),
    /// The server answered a service call with a message instead of a response.
    ServerError(String),
    /// A value could not be read as the expected type.
    SerializationError(String),
}

/// An [`Error`] with its text as a sequence of characters.
pub enum ErrorView {
    Disconnected,
    Timeout(Seq<char>),
    IoError(Seq<char>),
    Unexpected(Seq<char>),
    ServerError(Seq<char>),
    SerializationError(Seq<char>),
}

impl View for Error {
    type V = ErrorView;

    open spec fn view(&self) -> ErrorView {
        match self {
            Error::Disconnected => ErrorView::Disconnected,
            Error::Timeout(text) => ErrorView::Timeout(text@),
            Error::IoError(text) => ErrorView::IoError(text@),
            Error::Unexpected(text) => ErrorView::Unexpected(text@),
            Error::ServerError(text) => ErrorView::ServerError(text@),
            Error::SerializationError(text) => ErrorView::SerializationError(text@),
        }
    }
}

/// What came of waiting for something under a deadline.
pub enum Waited<T> {
    /// It finished in time.
    Done(T),
    /// The deadline passed first.
    Elapsed,
}

/// What an operation returns whose work was waited for under a deadline.
pub open spec fn timeout_outcome<T>(waited: Waited<Result<T, Error>>) -> Result<T, ErrorView> {
    match waited {
        Waited::Done(Ok(value)) => Ok(value),
        Waited::Done(Err(error)) => Err(error@),
        Waited::Elapsed => Err(ErrorView::Timeout("Elapsed(())"@)),
    }
}

/// A `result` with its error as a view.
pub open spec fn outcome<T>(result: Result<T, Error>) -> Result<T, ErrorView> {
    match result {
        Ok(value) => Ok(value),
        Err(error) => Err(error@),
    }
}

/// A `result` with its value and its error as views.
pub open spec fn viewed<T: View>(result: Result<T, Error>) -> Result<T::V, ErrorView> {
    match result {
        Ok(value) => Ok(value@),
        Err(error) => Err(error@),
    }
}

/// Passes on what finished in time, and turns a passed deadline into [`Error::Timeout`].
pub fn timeout<T>(waited: Waited<Result<T, Error>>) -> (result: Result<T, Error>)
    ensures
        outcome(result) == timeout_outcome(waited),
        waited matches Waited::Done(done) ==> result == done,
        waited is Elapsed ==> (result matches Err(Error::Timeout(text)) && text@
            == "Elapsed(())"@),
{
    match waited {
        Waited::Done(result) => result,
        Waited::Elapsed => Err(Error::Timeout("Elapsed(())".to_owned())),
    }
}

} // verus!
