//! The error taxonomy of session setup and of the running session.

use vstd::prelude::*;

verus! {

/// Which of the two long-running session tasks an error came from.
#[derive(Clone, Copy, Debug, PartialEq, Eq, Structural)]
pub enum TaskSource {
    Inspector,
    Server,
}

/// A terminal session error.
///
/// Setup errors (`RemoteRejected`, `MalformedResponse`, `InvalidExchangeUrl`,
/// `MissingToken`) abort the handshake before any task starts; `TaskFailure`
/// is the first abnormal termination of either running task.
#[derive(Debug)]
pub enum Error {
    /// The remote control plane answered a setup request with a non-success
    /// status; carries the response body.
    RemoteRejected { body: String },
    /// A response body did not hold the expected shape.
    MalformedResponse,
    /// The registration response's exchange address has no parsable host.
    InvalidExchangeUrl,
    /// The exchange response did not carry the preview-token header.
    MissingToken,
    /// One of the two running tasks terminated abnormally.
    TaskFailure { source: TaskSource, message: String },
}

/// The mathematical shape of an [`Error`].
pub enum ErrorView {
    RemoteRejected { body: Seq<char> },
    MalformedResponse,
    InvalidExchangeUrl,
    MissingToken,
    TaskFailure { source: TaskSource, message: Seq<char> },
}

impl View for Error {
    type V = ErrorView;

    open spec fn view(&self) -> ErrorView {
        match self {
            Error::RemoteRejected { body } => ErrorView::RemoteRejected { body: body@ },
            Error::MalformedResponse => ErrorView::MalformedResponse,
            Error::InvalidExchangeUrl => ErrorView::InvalidExchangeUrl,
            Error::MissingToken => ErrorView::MissingToken,
            Error::TaskFailure { source, message } => ErrorView::TaskFailure {
                source: *source,
                message: message@,
            },
        }
    }
}

} // verus!
