//! The fields a client sends to create or change a book.

use vstd::prelude::*;

verus! {

/// Title and author of a book, without an identifier. Either may be empty.
#[derive(Debug)]
pub struct BookRequest {
    pub title: String,
    pub author: String,
}

/// Mathematical model of [`BookRequest`].
pub struct BookRequestView {
    pub title: Seq<char>,
    pub author: Seq<char>,
}

impl View for BookRequest {
    type V = BookRequestView;

    open spec fn view(&self) -> BookRequestView {
        BookRequestView { title: self.title@, author: self.author@ }
    }
}

impl Clone for BookRequest {
    fn clone(&self) -> (copy: Self)
        ensures
            copy@ == self@,
    {
        BookRequest { title: self.title.clone(), author: self.author.clone() }
    }
}

} // verus!
