//! How a request can fail.

use vstd::prelude::*;

verus! {

/// The status of a successful request.
pub const OK: u16 = 200;

/// The status of a successful request that has nothing to show.
pub const NO_CONTENT: u16 = 204;

/// The status of a request that is at fault itself.
pub const BAD_REQUEST: u16 = 400;

/// The status of a request by someone who may not make it.
pub const UNAUTHORIZED: u16 = 401;

/// The status of a request for something that is not there.
pub const NOT_FOUND: u16 = 404;

/// A failure that the registry foresees: what the client is told, and why.
#[derive(Debug)]
pub struct ExpectedError {
    pub status_code: u16,
    pub message: String,
    pub reason: String,
    pub metadata: Option<String>,
}

/// A failure of something that the registry relies on: what it was doing, and
/// what went wrong.
#[derive(Debug)]
pub struct UnexpectedError {
    pub context: String,
    pub cause: String,
}

#[derive(Debug)]
pub enum AppError {
    Expected(ExpectedError),
    Unexpected(UnexpectedError),
}

/// What an [`AppError`] says.
pub ghost enum AppErrorView {
    Expected {
        status_code: u16,
        message: Seq<char>,
        reason: Seq<char>,
        metadata: Option<Seq<char>>,
    },
    Unexpected { context: Seq<char>, cause: Seq<char> },
}

impl View for AppError {
    type V = AppErrorView;

    open spec fn view(&self) -> AppErrorView {
        match self {
            AppError::Expected(e) => AppErrorView::Expected {
                status_code: e.status_code,
                message: e.message@,
                reason: e.reason@,
                metadata: match e.metadata {
                    Some(m) => Some(m@),
                    None => None,
                },
            },
            AppError::Unexpected(e) => AppErrorView::Unexpected {
                context: e.context@,
                cause: e.cause@,
            },
        }
    }
}

/// The view of an error holds each part of the error under its own name.
pub proof fn law_errors_are_seen_as_they_are(expected: ExpectedError, unexpected: UnexpectedError)
    ensures
        AppError::Expected(expected)@ == (AppErrorView::Expected {
            status_code: expected.status_code,
            message: expected.message@,
            reason: expected.reason@,
            metadata: match expected.metadata {
                Some(metadata) => Some(metadata@),
                None => None,
            },
        }),
        AppError::Unexpected(unexpected)@ == (AppErrorView::Unexpected {
            context: unexpected.context@,
            cause: unexpected.cause@,
        }),
{
}

/// The failure of something relied on, with what was being done.
pub open spec fn unexpected(context: Seq<char>, cause: Seq<char>) -> AppErrorView {
    AppErrorView::Unexpected { context, cause }
}

impl AppError {
    /// The failure `cause` of something that the registry did for `context`.
    pub fn unexpected(context: &str, cause: String) -> (error: AppError)
        ensures
            error@ == unexpected(context@, cause@),
    {
        AppError::Unexpected(UnexpectedError { context: context.to_owned(), cause })
    }
}

} // verus!
