//! The four operations on the database.
//!
//! Each operation is one statement, sent once, and one reading of the rows
//! that come back. The caller prepares and runs the statement on a pooled
//! connection; this module says which statement with which parameters, and
//! what the returned rows mean.

use crate::errors::{MyError, MyErrorView};
use crate::models::book::{book_of_row, row_of_book, Book, BookView};
use crate::models::book_request::BookRequest;
use crate::models::user::{user_of_row, User, UserView};
use crate::row::{row_views, Row, RowView};
use vstd::prelude::*;

verus! {

/// Selects every book, in no particular order.
pub const BOOK_LIST_SQL: &'static str = "SELECT * FROM public.books";

/// Inserts a book with title `$1` and author `$2` and returns the stored row.
pub const BOOK_CREATE_SQL: &'static str =
    "INSERT INTO public.books (title, author) VALUES ($1, $2) RETURNING uuid, title, author";

/// Sets title `$2` and author `$3` on the book with identifier `$1` and
/// returns the stored row.
pub const BOOK_UPDATE_SQL: &'static str =
    "UPDATE public.books SET title = $2, author = $3 WHERE uuid = $1 RETURNING uuid, title, author";

/// Selects the user with identifier `$1`.
pub const USER_SHOW_SQL: &'static str = "SELECT * FROM public.users WHERE uuid = $1";

/// A value bound to a placeholder of a statement.
#[derive(Debug, PartialEq, Eq)]
pub enum Param {
    Uuid(u128),
    Text(String),
}

/// Mathematical model of [`Param`].
pub enum ParamView {
    Uuid(u128),
    Text(Seq<char>),
}

impl View for Param {
    type V = ParamView;

    open spec fn view(&self) -> ParamView {
        match self {
            Param::Uuid(id) => ParamView::Uuid(*id),
            Param::Text(text) => ParamView::Text(text@),
        }
    }
}

impl Clone for Param {
    fn clone(&self) -> (copy: Self)
        ensures
            copy@ == self@,
    {
        match self {
            Param::Uuid(id) => Param::Uuid(*id),
            Param::Text(text) => Param::Text(text.clone()),
        }
    }
}

/// A parameterized statement: its text and the values for `$1`, `$2`, ...
/// in that order.
#[derive(Debug, PartialEq, Eq)]
pub struct Statement {
    pub sql: String,
    pub params: Vec<Param>,
}

/// Mathematical model of [`Statement`].
pub struct StatementView {
    pub sql: Seq<char>,
    pub params: Seq<ParamView>,
}

impl View for Statement {
    type V = StatementView;

    open spec fn view(&self) -> StatementView {
        StatementView { sql: self.sql@, params: self.params@.map_values(|p: Param| p@) }
    }
}

impl Clone for Statement {
    fn clone(&self) -> (copy: Self)
        ensures
            copy@ == self@,
    {
        let mut params: Vec<Param> = Vec::new();
        let mut i: usize = 0;
        while i < self.params.len()
            invariant
                i <= self.params.len(),
                params.len() == i,
                forall|j: int| 0 <= j < i ==> (#[trigger] params@[j])@ == self.params@[j]@,
            decreases self.params.len() - i,
        {
            params.push(self.params[i].clone());
            i = i + 1;
        }
        let copy = Statement { sql: self.sql.clone(), params };
        assert(copy@.params =~= self@.params);
        copy
    }
}

/// The statement that lists the books: no parameters.
pub open spec fn spec_book_list_statement() -> StatementView {
    StatementView { sql: BOOK_LIST_SQL@, params: seq![] }
}

/// The statement that creates a book: title, then author.
pub open spec fn spec_book_create_statement(title: Seq<char>, author: Seq<char>) -> StatementView {
    StatementView {
        sql: BOOK_CREATE_SQL@,
        params: seq![ParamView::Text(title), ParamView::Text(author)],
    }
}

/// The statement that changes a book: identifier, then title, then author.
pub open spec fn spec_book_update_statement(
    id: u128,
    title: Seq<char>,
    author: Seq<char>,
) -> StatementView {
    StatementView {
        sql: BOOK_UPDATE_SQL@,
        params: seq![ParamView::Uuid(id), ParamView::Text(title), ParamView::Text(author)],
    }
}

/// The statement that fetches a user: the identifier.
pub open spec fn spec_user_show_statement(id: u128) -> StatementView {
    StatementView { sql: USER_SHOW_SQL@, params: seq![ParamView::Uuid(id)] }
}

/// The statement for listing the books.
pub fn book_list_statement() -> (statement: Statement)
    ensures
        statement@ == spec_book_list_statement(),
{
    let statement = Statement { sql: BOOK_LIST_SQL.to_owned(), params: Vec::new() };
    assert(statement@.params =~= seq![]);
    statement
}

/// The statement for creating the book that `book` describes.
pub fn book_create_statement(book: &BookRequest) -> (statement: Statement)
    ensures
        statement@ == spec_book_create_statement(book.title@, book.author@),
{
    let mut params: Vec<Param> = Vec::new();
    params.push(Param::Text(book.title.clone()));
    params.push(Param::Text(book.author.clone()));
    let statement = Statement { sql: BOOK_CREATE_SQL.to_owned(), params };
    assert(statement@.params =~= spec_book_create_statement(book.title@, book.author@).params);
    statement
}

/// The statement for giving the book `uuid` the title and author of `book`.
pub fn book_update_statement(uuid: u128, book: &BookRequest) -> (statement: Statement)
    ensures
        statement@ == spec_book_update_statement(uuid, book.title@, book.author@),
{
    let mut params: Vec<Param> = Vec::new();
    params.push(Param::Uuid(uuid));
    params.push(Param::Text(book.title.clone()));
    params.push(Param::Text(book.author.clone()));
    let statement = Statement { sql: BOOK_UPDATE_SQL.to_owned(), params };
    assert(statement@.params =~= spec_book_update_statement(
        uuid,
        book.title@,
        book.author@,
    ).params);
    statement
}

/// The statement for fetching the user `uuid`.
pub fn user_show_statement(uuid: u128) -> (statement: Statement)
    ensures
        statement@ == spec_user_show_statement(uuid),
{
    let mut params: Vec<Param> = Vec::new();
    params.push(Param::Uuid(uuid));
    let statement = Statement { sql: USER_SHOW_SQL.to_owned(), params };
    assert(statement@.params =~= spec_user_show_statement(uuid).params);
    statement
}

/// The models of a sequence of books, in the same order.
pub open spec fn book_views(books: Seq<Book>) -> Seq<BookView> {
    books.map_values(|b: Book| b@)
}

/// Every row holds a book.
pub open spec fn all_books(rows: Seq<RowView>) -> bool {
    forall|i: int| 0 <= i < rows.len() ==> book_of_row(#[trigger] rows[i]) is Some
}

/// Every row holds a user.
pub open spec fn all_users(rows: Seq<RowView>) -> bool {
    forall|i: int| 0 <= i < rows.len() ==> user_of_row(#[trigger] rows[i]) is Some
}

/// The books that the rows hold, row by row.
pub open spec fn books_of_rows(rows: Seq<RowView>) -> Seq<BookView> {
    rows.map_values(|row: RowView| book_of_row(row).unwrap())
}

/// The rows in which the `books` table holds `books`, in the same order.
pub open spec fn rows_of_books(books: Seq<BookView>) -> Seq<RowView> {
    books.map_values(|book: BookView| row_of_book(book))
}

/// What listing the books returns for the rows of the result: one book per
/// row, in the order of the rows; `MappingError` when a row holds no book.
pub open spec fn spec_book_list(rows: Seq<RowView>) -> Result<Seq<BookView>, MyErrorView> {
    if all_books(rows) {
        Ok(books_of_rows(rows))
    } else {
        Err(MyErrorView::MappingError)
    }
}

/// What creating a book returns for the rows of the result: the book in the
/// last row. `MappingError` when a row holds no book, `NoRowReturned` when
/// there is no row.
pub open spec fn spec_book_create(rows: Seq<RowView>) -> Result<BookView, MyErrorView> {
    if !all_books(rows) {
        Err(MyErrorView::MappingError)
    } else if rows.len() == 0 {
        Err(MyErrorView::NoRowReturned)
    } else {
        Ok(book_of_row(rows.last()).unwrap())
    }
}

/// What changing a book returns for the rows of the result: the book in the
/// last row. `MappingError` when a row holds no book, `NotFound` when there
/// is no row, which is how the database says that no book has the identifier.
pub open spec fn spec_book_update(rows: Seq<RowView>) -> Result<BookView, MyErrorView> {
    if !all_books(rows) {
        Err(MyErrorView::MappingError)
    } else if rows.len() == 0 {
        Err(MyErrorView::NotFound)
    } else {
        Ok(book_of_row(rows.last()).unwrap())
    }
}

/// What fetching a user returns for the rows of the result: the user in the
/// last row. `MappingError` when a row holds no user, `NotFound` when there
/// is no row.
pub open spec fn spec_user_show(rows: Seq<RowView>) -> Result<UserView, MyErrorView> {
    if !all_users(rows) {
        Err(MyErrorView::MappingError)
    } else if rows.len() == 0 {
        Err(MyErrorView::NotFound)
    } else {
        Ok(user_of_row(rows.last()).unwrap())
    }
}

/// Reads the rows that [`BOOK_LIST_SQL`] returned: one book per row, in the
/// order of the rows. Fails with `MappingError` when a row holds no book.
pub fn book_list(rows: &Vec<Row>) -> (result: Result<Vec<Book>, MyError>)
    ensures
        match result {
            Ok(books) => spec_book_list(row_views(rows@)) == Ok::<_, MyErrorView>(
                book_views(books@),
            ) && books.len() == rows.len(),
            Err(e) => spec_book_list(row_views(rows@)) == Err::<Seq<BookView>, _>(e@),
        },
{
    let ghost models = row_views(rows@);
    let mut list: Vec<Book> = Vec::new();
    let mut i: usize = 0;
    while i < rows.len()
        invariant
            i <= rows.len(),
            list.len() == i,
            models == row_views(rows@),
            forall|j: int| 0 <= j < i ==> book_of_row(#[trigger] models[j]) == Some(list@[j]@),
        decreases rows.len() - i,
    {
        match Book::from_row(&rows[i]) {
            Ok(book) => {
                list.push(book);
            },
            Err(e) => {
                assert(book_of_row(models[i as int]) is None);
                return Err(e);
            },
        }
        i = i + 1;
    }
    assert(book_views(list@) =~= books_of_rows(models));
    Ok(list)
}

/// Reads the rows that [`BOOK_CREATE_SQL`] returned: the book in the last
/// row. Fails with `MappingError` when a row holds no book and with
/// `NoRowReturned` when there is no row.
pub fn book_create(rows: &Vec<Row>) -> (result: Result<Book, MyError>)
    ensures
        match result {
            Ok(book) => spec_book_create(row_views(rows@)) == Ok::<_, MyErrorView>(book@),
            Err(e) => spec_book_create(row_views(rows@)) == Err::<BookView, _>(e@),
        },
{
    let ghost models = row_views(rows@);
    let mut list = book_list(rows)?;
    let ghost books = book_views(list@);
    assert(books == books_of_rows(models));
    assert(books.len() == models.len());
    match list.pop() {
        Some(book) => {
            assert(book@ == books[books.len() - 1]);
            assert(books[books.len() - 1] == book_of_row(models[models.len() - 1]).unwrap());
            Ok(book)
        },
        None => Err(MyError::NoRowReturned),
    }
}

/// Reads the rows that [`BOOK_UPDATE_SQL`] returned: the book in the last
/// row. Fails with `MappingError` when a row holds no book and with
/// `NotFound` when there is no row.
pub fn book_update(rows: &Vec<Row>) -> (result: Result<Book, MyError>)
    ensures
        match result {
            Ok(book) => spec_book_update(row_views(rows@)) == Ok::<_, MyErrorView>(book@),
            Err(e) => spec_book_update(row_views(rows@)) == Err::<BookView, _>(e@),
        },
{
    let ghost models = row_views(rows@);
    let mut list = book_list(rows)?;
    let ghost books = book_views(list@);
    assert(books == books_of_rows(models));
    assert(books.len() == models.len());
    match list.pop() {
        Some(book) => {
            assert(book@ == books[books.len() - 1]);
            assert(books[books.len() - 1] == book_of_row(models[models.len() - 1]).unwrap());
            Ok(book)
        },
        None => Err(MyError::NotFound),
    }
}

/// Reads the rows that [`USER_SHOW_SQL`] returned: the user in the last row.
/// Fails with `MappingError` when a row holds no user and with `NotFound`
/// when there is no row.
pub fn user_show(rows: &Vec<Row>) -> (result: Result<User, MyError>)
    ensures
        match result {
            Ok(user) => spec_user_show(row_views(rows@)) == Ok::<_, MyErrorView>(user@),
            Err(e) => spec_user_show(row_views(rows@)) == Err::<UserView, _>(e@),
        },
{
    let ghost models = row_views(rows@);
    let mut found: Option<User> = None;
    let mut i: usize = 0;
    while i < rows.len()
        invariant
            i <= rows.len(),
            models == row_views(rows@),
            forall|j: int| 0 <= j < i ==> user_of_row(#[trigger] models[j]) is Some,
            i == 0 ==> found is None,
            i > 0 ==> found is Some && user_of_row(models[i - 1]) == Some(found.unwrap()@),
        decreases rows.len() - i,
    {
        match User::from_row(&rows[i]) {
            Ok(user) => {
                found = Some(user);
            },
            Err(e) => {
                assert(user_of_row(models[i as int]) is None);
                return Err(e);
            },
        }
        i = i + 1;
    }
    match found {
        Some(user) => Ok(user),
        None => Err(MyError::NotFound),
    }
}

} // verus!
