//! The error that the launcher reports.

use vstd::prelude::*;

verus! {

/// Why an operation failed.
#[derive(Clone, Debug)]
pub enum AppError {
    /// A failure that the launcher itself found.
    Message(String),
    /// A failed file operation: what was being done, and the reason that the system gave.
    Io { context: String, reason: String },
    /// Data that could not be read or written as JSON, and the reason.
    Json { reason: String },
}

/// The texts of an `AppError`.
pub enum ErrorView {
    Message(Seq<char>),
    Io { context: Seq<char>, reason: Seq<char> },
    Json { reason: Seq<char> },
}

impl View for AppError {
    type V = ErrorView;

    open spec fn view(&self) -> ErrorView {
        match self {
            AppError::Message(text) => ErrorView::Message(text@),
            AppError::Io { context, reason } => ErrorView::Io {
                context: context@,
                reason: reason@,
            },
            AppError::Json { reason } => ErrorView::Json { reason: reason@ },
        }
    }
}

/// A result with the views of its value and its error.
pub open spec fn viewed<T: View>(result: Result<T, AppError>) -> Result<T::V, ErrorView> {
    match result {
        Ok(value) => Ok(value@),
        Err(error) => Err(error@),
    }
}

/// The same for a value that may be missing.
pub open spec fn viewed_option<T: View>(result: Result<Option<T>, AppError>) -> Result<
    Option<T::V>,
    ErrorView,
> {
    match result {
        Ok(Some(value)) => Ok(Some(value@)),
        Ok(None) => Ok(None),
        Err(error) => Err(error@),
    }
}

impl AppError {
    /// A failure described by `text` alone.
    pub fn message(text: &str) -> (error: AppError)
        ensures
            error@ == ErrorView::Message(text@),
    {
        AppError::Message(text.to_owned())
    }

    /// A file operation that failed for `reason` while the launcher did what `context` says.
    pub fn io(context: &str, reason: String) -> (error: AppError)
        ensures
            error@ == (ErrorView::Io { context: context@, reason: reason@ }),
    {
        AppError::Io { context: context.to_owned(), reason }
    }

    /// A JSON text that could not be read or written for `reason`.
    pub fn json(reason: String) -> (error: AppError)
        ensures
            error@ == (ErrorView::Json { reason: reason@ }),
    {
        AppError::Json { reason }
    }
}

} // verus!
