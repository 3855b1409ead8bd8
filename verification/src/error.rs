//! Errors.

use vstd::prelude::*;

verus! {

/// What the database can answer instead of rows or a row count.
#[derive(Debug, PartialEq)]
pub enum DbError {
    /// One row was asked for and none was found.
    RowNotFound,
    /// A subquery that stands for one value found more than one, or one statement was to write
    /// one row twice.
    CardinalityViolation,
    /// A sum does not fit its column type.
    NumericOutOfRange,
    /// Anything else, in the server's words.
    Other(String),
}

/// What an operation can fail with.
#[derive(Debug, PartialEq)]
pub enum AppError {
    RecordNotFound(String),
    NotEnoughPermissions { user: String, action: String },
    /// A reply that should not occur.
    Internal(String),
    /// A stored value that is not in the form asked for.
    Serde(String),
    Database(DbError),
}

/// An [`AppError`] with its texts as sequences of characters.
pub enum AppErrorView {
    RecordNotFound(Seq<char>),
    NotEnoughPermissions { user: Seq<char>, action: Seq<char> },
    Internal(Seq<char>),
    Serde(Seq<char>),
    Database(DbError),
}

impl DeepView for AppError {
    type V = AppErrorView;

    open spec fn deep_view(&self) -> AppErrorView {
        match self {
            AppError::RecordNotFound(text) => AppErrorView::RecordNotFound(text@),
            AppError::NotEnoughPermissions { user, action } => AppErrorView::NotEnoughPermissions {
                user: user@,
                action: action@,
            },
            AppError::Internal(text) => AppErrorView::Internal(text@),
            AppError::Serde(text) => AppErrorView::Serde(text@),
            AppError::Database(error) => AppErrorView::Database(*error),
        }
    }
}

/// A result with its value and its error as mathematical values.
pub open spec fn seen<T: DeepView>(result: Result<T, AppError>) -> Result<T::V, AppErrorView> {
    match result {
        Ok(value) => Ok(value.deep_view()),
        Err(error) => Err(error.deep_view()),
    }
}

/// A database error as the operations hand it on.
pub open spec fn handed_on<T>(result: Result<T, DbError>) -> Result<T, AppErrorView> {
    match result {
        Ok(value) => Ok(value),
        Err(error) => Err(AppErrorView::Database(error)),
    }
}

} // verus!
