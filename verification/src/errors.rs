//! The error kinds of the service and their HTTP status codes.

use vstd::prelude::*;

verus! {

/// Everything that can go wrong while serving one request.
#[derive(Debug, PartialEq, Eq)]
pub enum MyError {
    /// An update or a fetch named an identifier that no row has.
    NotFound,
    /// The identifier in the request path is not a well-formed UUID.
    /// Holds the text that was received.
    InvalidUuid(String),
    /// The pool could not hand out a connection. Holds the pool's message.
    PoolError(String),
    /// The database refused or failed to run the statement. Holds the
    /// driver's message.
    QueryError(String),
    /// A returned row does not have the shape of the record it should become.
    MappingError,
    /// An insert came back without the row it had to return.
    NoRowReturned,
}

/// Mathematical model of [`MyError`].
pub enum MyErrorView {
    NotFound,
    InvalidUuid(Seq<char>),
    PoolError(Seq<char>),
    QueryError(Seq<char>),
    MappingError,
    NoRowReturned,
}

impl View for MyError {
    type V = MyErrorView;

    open spec fn view(&self) -> MyErrorView {
        match self {
            MyError::NotFound => MyErrorView::NotFound,
            MyError::InvalidUuid(text) => MyErrorView::InvalidUuid(text@),
            MyError::PoolError(message) => MyErrorView::PoolError(message@),
            MyError::QueryError(message) => MyErrorView::QueryError(message@),
            MyError::MappingError => MyErrorView::MappingError,
            MyError::NoRowReturned => MyErrorView::NoRowReturned,
        }
    }
}

impl Clone for MyError {
    fn clone(&self) -> (copy: Self)
        ensures
            copy@ == self@,
    {
        match self {
            MyError::NotFound => MyError::NotFound,
            MyError::InvalidUuid(text) => MyError::InvalidUuid(text.clone()),
            MyError::PoolError(message) => MyError::PoolError(message.clone()),
            MyError::QueryError(message) => MyError::QueryError(message.clone()),
            MyError::MappingError => MyError::MappingError,
            MyError::NoRowReturned => MyError::NoRowReturned,
        }
    }
}

/// Status of a successful response.
pub const STATUS_OK: u16 = 200;

/// Status for a malformed identifier.
pub const STATUS_BAD_REQUEST: u16 = 400;

/// Status for an identifier that no row has.
pub const STATUS_NOT_FOUND: u16 = 404;

/// Status for every failure that is not the client's.
pub const STATUS_INTERNAL_SERVER_ERROR: u16 = 500;

impl MyErrorView {
    /// The HTTP status that reports this error: 404 for a missing row, 400
    /// for a malformed identifier, 500 for everything else.
    pub open spec fn status_code(self) -> u16 {
        match self {
            MyErrorView::NotFound => STATUS_NOT_FOUND,
            MyErrorView::InvalidUuid(_) => STATUS_BAD_REQUEST,
            MyErrorView::PoolError(_) => STATUS_INTERNAL_SERVER_ERROR,
            MyErrorView::QueryError(_) => STATUS_INTERNAL_SERVER_ERROR,
            MyErrorView::MappingError => STATUS_INTERNAL_SERVER_ERROR,
            MyErrorView::NoRowReturned => STATUS_INTERNAL_SERVER_ERROR,
        }
    }
}

impl MyError {
    /// The HTTP status that reports this error.
    pub fn status_code(&self) -> (status: u16)
        ensures
            status == self@.status_code(),
    {
        match self {
            MyError::NotFound => STATUS_NOT_FOUND,
            MyError::InvalidUuid(_) => STATUS_BAD_REQUEST,
            MyError::PoolError(_) => STATUS_INTERNAL_SERVER_ERROR,
            MyError::QueryError(_) => STATUS_INTERNAL_SERVER_ERROR,
            MyError::MappingError => STATUS_INTERNAL_SERVER_ERROR,
            MyError::NoRowReturned => STATUS_INTERNAL_SERVER_ERROR,
        }
    }
}

} // verus!
