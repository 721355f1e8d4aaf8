//! What holds of the service as a whole.
//!
//! The database is not part of this crate, so the laws about stored books
//! are stated for the rows a database returns when it keeps what the
//! statements bind: an insert stores the bound title and author under an
//! identifier of its choosing and returns that row, an update overwrites the
//! row with the bound identifier and returns it, and a select returns the
//! rows of the table.

use crate::db::{rows_of_books, spec_book_list, ParamView};
use crate::errors::{
    MyErrorView, STATUS_BAD_REQUEST, STATUS_INTERNAL_SERVER_ERROR, STATUS_NOT_FOUND, STATUS_OK,
};
use crate::handlers::{
    book_update_first_step, spec_completed, spec_connected, spec_reply, spec_statement,
    spec_status, user_show_first_step, OperationView, ReplyView, StepView,
};
use crate::models::book::{book_of_row, lemma_book_of_its_row, row_of_book, BookView};
use crate::models::book_request::BookRequestView;
use crate::row::RowView;
use vstd::prelude::*;

verus! {

/// A list shows every stored book exactly once, in the order of the rows.
pub proof fn lemma_list_shows_stored_books(stored: Seq<BookView>)
    ensures
        spec_book_list(rows_of_books(stored)) == Ok::<_, MyErrorView>(stored),
        spec_reply(OperationView::BookList, rows_of_books(stored)) == Ok::<_, MyErrorView>(
            ReplyView::Books(stored),
        ),
{
    let rows = rows_of_books(stored);
    assert forall|i: int| 0 <= i < rows.len() implies book_of_row(#[trigger] rows[i]) == Some(
        stored[i],
    ) by {
        lemma_book_of_its_row(stored[i]);
    }
    assert(crate::db::books_of_rows(rows) =~= stored);
}

/// Creating a book binds the title and author of the request. The reply is
/// the stored book, so it has that title and author, and a list that follows
/// shows it after the books that were stored before.
pub proof fn lemma_create_then_list(request: BookRequestView, id: u128, stored: Seq<BookView>)
    ensures
        ({
            let operation = OperationView::BookCreate(request);
            let created = BookView { id, title: request.title, author: request.author };
            &&& spec_statement(operation).params == seq![
                ParamView::Text(request.title),
                ParamView::Text(request.author),
            ]
            &&& spec_reply(operation, seq![row_of_book(created)]) == Ok::<_, MyErrorView>(
                ReplyView::Book(created),
            )
            &&& spec_status(spec_reply(operation, seq![row_of_book(created)])) == STATUS_OK
            &&& spec_reply(OperationView::BookList, rows_of_books(stored.push(created))) == Ok::<
                _,
                MyErrorView,
            >(ReplyView::Books(stored.push(created)))
        }),
{
    let created = BookView { id, title: request.title, author: request.author };
    lemma_book_of_its_row(created);
    lemma_list_shows_stored_books(stored.push(created));
    let rows = seq![row_of_book(created)];
    assert(rows.last() == row_of_book(created));
}

/// Changing the stored book at position `k` binds its identifier and the
/// title and author of the request. The reply is a book with the same
/// identifier and the new title and author, and a list that follows shows
/// that book in place of the old one and nowhere else.
pub proof fn lemma_update_then_list(stored: Seq<BookView>, k: int, request: BookRequestView)
    requires
        0 <= k < stored.len(),
        forall|j: int| 0 <= j < stored.len() && j != k ==> (#[trigger] stored[j]).id != stored[k].id,
    ensures
        ({
            let id = stored[k].id;
            let operation = OperationView::BookUpdate(id, request);
            let changed = BookView { id, title: request.title, author: request.author };
            let listed = stored.update(k, changed);
            &&& spec_statement(operation).params == seq![
                ParamView::Uuid(id),
                ParamView::Text(request.title),
                ParamView::Text(request.author),
            ]
            &&& spec_reply(operation, seq![row_of_book(changed)]) == Ok::<_, MyErrorView>(
                ReplyView::Book(changed),
            )
            &&& spec_status(spec_reply(operation, seq![row_of_book(changed)])) == STATUS_OK
            &&& spec_reply(OperationView::BookList, rows_of_books(listed)) == Ok::<_, MyErrorView>(
                ReplyView::Books(listed),
            )
            &&& listed.len() == stored.len()
            &&& forall|j: int| 0 <= j < listed.len() ==> ((#[trigger] listed[j]).id == id <==> j == k)
            &&& forall|j: int| 0 <= j < listed.len() && j != k ==> #[trigger] listed[j] == stored[j]
        }),
{
    let id = stored[k].id;
    let changed = BookView { id, title: request.title, author: request.author };
    let listed = stored.update(k, changed);
    lemma_book_of_its_row(changed);
    lemma_list_shows_stored_books(listed);
    let rows = seq![row_of_book(changed)];
    assert(rows.last() == row_of_book(changed));
    assert forall|j: int| 0 <= j < listed.len() implies ((#[trigger] listed[j]).id == id <==> j
        == k) by {
        if j != k {
            assert(listed[j] == stored[j]);
        }
    }
}

/// A request to change a book whose identifier the UUID parser reads as
/// `id`, but which no row has, connects, runs the update, and ends in
/// `NotFound` with status 404.
pub proof fn lemma_update_of_unknown_book(uuid: Seq<char>, id: u128, request: BookRequestView)
    ensures
        ({
            let operation = OperationView::BookUpdate(id, request);
            &&& book_update_first_step(uuid, Some(id), request) == StepView::Connect(
                operation,
            )
            &&& spec_connected(operation, Ok(())) == StepView::Query(
                operation,
                spec_statement(operation),
            )
            &&& spec_completed(operation, Ok(Seq::empty())) == StepView::Respond(
                Err(MyErrorView::NotFound),
            )
            &&& spec_status(Err(MyErrorView::NotFound)) == STATUS_NOT_FOUND
        }),
{
}

/// A request to fetch a user whose identifier the UUID parser reads as
/// `id`, but which no row has, connects, runs the select, and ends in
/// `NotFound` with status 404.
pub proof fn lemma_fetch_of_unknown_user(uuid: Seq<char>, id: u128)
    ensures
        ({
            let operation = OperationView::UserShow(id);
            &&& user_show_first_step(uuid, Some(id)) == StepView::Connect(operation)
            &&& spec_connected(operation, Ok(())) == StepView::Query(
                operation,
                spec_statement(operation),
            )
            &&& spec_completed(operation, Ok(Seq::empty())) == StepView::Respond(
                Err(MyErrorView::NotFound),
            )
            &&& spec_status(Err(MyErrorView::NotFound)) == STATUS_NOT_FOUND
        }),
{
}

/// A request whose identifier the UUID parser rejects is answered in its
/// first step with `InvalidUuid` and status 400: no connection is taken and
/// no statement is run for it.
pub proof fn lemma_malformed_identifier_is_refused(uuid: Seq<char>, request: BookRequestView)
    ensures
        user_show_first_step(uuid, None) == StepView::Respond(
            Err(MyErrorView::InvalidUuid(uuid)),
        ),
        book_update_first_step(uuid, None, request) == StepView::Respond(
            Err(MyErrorView::InvalidUuid(uuid)),
        ),
        spec_status(Err(MyErrorView::InvalidUuid(uuid))) == STATUS_BAD_REQUEST,
{
}

/// Whatever the pool and the database report, a request to list or create
/// books ends with status 200 or 500, and a request to change a book or
/// fetch a user that got past its first step ends with 200, 404 or 500.
pub proof fn lemma_statuses_after_the_first_step(
    operation: OperationView,
    pool_message: Seq<char>,
    result: Result<Seq<RowView>, Seq<char>>,
)
    ensures
        spec_connected(operation, Err(pool_message)) == StepView::Respond(
            Err(MyErrorView::PoolError(pool_message)),
        ),
        spec_status(Err(MyErrorView::PoolError(pool_message))) == STATUS_INTERNAL_SERVER_ERROR,
        spec_completed(operation, result) matches StepView::Respond(outcome) && ({
            let code = spec_status(outcome);
            match operation {
                OperationView::BookList | OperationView::BookCreate(_) => {
                    code == STATUS_OK || code == STATUS_INTERNAL_SERVER_ERROR
                },
                OperationView::BookUpdate(_, _) | OperationView::UserShow(_) => {
                    code == STATUS_OK || code == STATUS_NOT_FOUND || code
                        == STATUS_INTERNAL_SERVER_ERROR
                },
            }
        }),
{
}

} // verus!
