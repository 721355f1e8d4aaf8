//! Books and the rows they are stored in.

use crate::errors::{MyError, MyErrorView};
use crate::row::{text_value, uuid_value, Row, RowView, Value, ValueView};
use vstd::prelude::*;

verus! {

/// A book as the `books` table holds it. The database assigns `id` when the
/// book is created and never changes it.
#[derive(Debug)]
pub struct Book {
    pub id: u128,
    pub title: String,
    pub author: String,
}

/// Mathematical model of [`Book`].
pub struct BookView {
    pub id: u128,
    pub title: Seq<char>,
    pub author: Seq<char>,
}

impl View for Book {
    type V = BookView;

    open spec fn view(&self) -> BookView {
        BookView { id: self.id, title: self.title@, author: self.author@ }
    }
}

impl Clone for Book {
    fn clone(&self) -> (copy: Self)
        ensures
            copy@ == self@,
    {
        Book { id: self.id, title: self.title.clone(), author: self.author.clone() }
    }
}

/// Two books are the same book when they have the same identifier.
impl PartialEq for Book {
    fn eq(&self, other: &Self) -> (same: bool) {
        self.id == other.id
    }
}

impl Eq for Book {

}

impl vstd::std_specs::cmp::PartialEqSpecImpl for Book {
    open spec fn obeys_eq_spec() -> bool {
        true
    }

    open spec fn eq_spec(&self, other: &Self) -> bool {
        self.id == other.id
    }
}

/// The book that a row of the `books` table holds: its `uuid`, `title` and
/// `author` columns. `None` when one of them is missing, null, or of another
/// type. Further columns are ignored.
pub open spec fn book_of_row(row: RowView) -> Option<BookView> {
    match (uuid_value(row, "uuid"@), text_value(row, "title"@), text_value(row, "author"@)) {
        (Some(id), Some(title), Some(author)) => Some(BookView { id, title, author }),
        _ => None,
    }
}

/// The row in which the `books` table holds `book`.
pub open spec fn row_of_book(book: BookView) -> RowView {
    map![
        "uuid"@ => ValueView::Uuid(book.id),
        "title"@ => ValueView::Text(book.title),
        "author"@ => ValueView::Text(book.author),
    ]
}

/// A book is read back unchanged from the row that holds it.
pub proof fn lemma_book_of_its_row(book: BookView)
    ensures
        book_of_row(row_of_book(book)) == Some(book),
{
    reveal_strlit("uuid");
    reveal_strlit("title");
    reveal_strlit("author");
    assert("uuid"@.len() == 4 && "title"@.len() == 5 && "author"@.len() == 6);
}

impl Book {
    /// Reads a book from a row of the `books` table. Fails with
    /// `MappingError` exactly when the row does not hold a book.
    pub fn from_row(row: &Row) -> (result: Result<Book, MyError>)
        ensures
            match result {
                Ok(book) => book_of_row(row@) == Some(book@),
                Err(e) => book_of_row(row@) is None && e@ == MyErrorView::MappingError,
            },
    {
        let id: u128 = row.get_uuid("uuid")?;
        let title = row.get_text("title")?;
        let author = row.get_text("author")?;
        Ok(Book { id, title, author })
    }

    /// The row in which the `books` table holds this book.
    pub fn to_row(&self) -> (row: Row)
        ensures
            row@ == row_of_book(self@),
    {
        let mut row = Row::new();
        row.push("uuid", Value::Uuid(self.id));
        row.push("title", Value::Text(self.title.clone()));
        row.push("author", Value::Text(self.author.clone()));
        proof {
            reveal_strlit("uuid");
            reveal_strlit("title");
            reveal_strlit("author");
            assert("uuid"@.len() == 4 && "title"@.len() == 5 && "author"@.len() == 6);
            assert(row@ =~= row_of_book(self@));
        }
        row
    }
}

} // verus!
