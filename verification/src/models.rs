//! The records of the service.

pub mod book;
pub mod book_request;
pub mod user;

pub use book::{Book, BookView};
pub use book_request::{BookRequest, BookRequestView};
pub use user::{User, UserView};
