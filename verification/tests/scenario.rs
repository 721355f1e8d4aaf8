use book_service::db::{
    Param, Statement, BOOK_CREATE_SQL, BOOK_LIST_SQL, BOOK_UPDATE_SQL, USER_SHOW_SQL,
};
use book_service::errors::MyError;
use book_service::handlers::{
    book_create, book_list, book_update, completed, connected, status, user_show, Reply, Step,
};
use book_service::models::BookRequest;
use book_service::row::{Row, Value};

/// A stand-in for the database: two tables in memory, and counters for what
/// was asked of it.
struct Database {
    books: Vec<(u128, String, String)>,
    users: Vec<(u128, String)>,
    next_id: u128,
    connections: usize,
    statements: usize,
}

fn database() -> Database {
    Database {
        books: Vec::new(),
        users: vec![(0x0123_4567_89ab_4cde_8f01_2345_6789_abcd, "Ada".to_string())],
        next_id: 0x550e8400_e29b_41d4_a716_446655440000,
        connections: 0,
        statements: 0,
    }
}

fn book_row(book: &(u128, String, String)) -> Row {
    let mut row = Row::new();
    row.push("uuid", Value::Uuid(book.0));
    row.push("title", Value::Text(book.1.clone()));
    row.push("author", Value::Text(book.2.clone()));
    row
}

fn user_row(user: &(u128, String)) -> Row {
    let mut row = Row::new();
    row.push("uuid", Value::Uuid(user.0));
    row.push("name", Value::Text(user.1.clone()));
    row
}

fn run(db: &mut Database, statement: &Statement) -> Result<Vec<Row>, String> {
    db.statements += 1;
    let params = &statement.params;
    if statement.sql == BOOK_LIST_SQL {
        Ok(db.books.iter().map(book_row).collect())
    } else if statement.sql == BOOK_CREATE_SQL {
        match (&params[0], &params[1]) {
            (Param::Text(title), Param::Text(author)) => {
                let book = (db.next_id, title.clone(), author.clone());
                db.next_id += 1;
                let row = book_row(&book);
                db.books.push(book);
                Ok(vec![row])
            }
            _ => Err("wrong parameter types".to_string()),
        }
    } else if statement.sql == BOOK_UPDATE_SQL {
        match (&params[0], &params[1], &params[2]) {
            (Param::Uuid(id), Param::Text(title), Param::Text(author)) => {
                let mut rows = Vec::new();
                for book in db.books.iter_mut() {
                    if book.0 == *id {
                        book.1 = title.clone();
                        book.2 = author.clone();
                        rows.push(book_row(book));
                    }
                }
                Ok(rows)
            }
            _ => Err("wrong parameter types".to_string()),
        }
    } else if statement.sql == USER_SHOW_SQL {
        match &params[0] {
            Param::Uuid(id) => Ok(db.users.iter().filter(|u| u.0 == *id).map(user_row).collect()),
            _ => Err("wrong parameter types".to_string()),
        }
    } else {
        Err(format!("unknown statement: {}", statement.sql))
    }
}

/// Drives one request to its response, as a server would.
fn serve(db: &mut Database, first: Step) -> (u16, Result<Reply, MyError>) {
    let mut step = first;
    loop {
        step = match step {
            Step::Connect(operation) => {
                db.connections += 1;
                connected(operation, Ok(()))
            }
            Step::Query(operation, statement) => {
                let result = run(db, &statement);
                completed(&operation, result)
            }
            Step::Respond(outcome) => return (status(&outcome), outcome),
        };
    }
}

fn request(title: &str, author: &str) -> BookRequest {
    BookRequest { title: title.to_string(), author: author.to_string() }
}

fn the_book(outcome: Result<Reply, MyError>) -> (u128, String, String) {
    match outcome {
        Ok(Reply::Book(book)) => (book.id, book.title, book.author),
        other => panic!("expected a book, got {:?}", other),
    }
}

fn the_books(outcome: Result<Reply, MyError>) -> Vec<(u128, String, String)> {
    match outcome {
        Ok(Reply::Books(books)) => books.into_iter().map(|b| (b.id, b.title, b.author)).collect(),
        other => panic!("expected books, got {:?}", other),
    }
}

#[test]
fn create_list_update() {
    let mut db = database();

    let (code, outcome) = serve(&mut db, book_create(request("Dune", "Herbert")));
    assert_eq!(code, 200);
    let created = the_book(outcome);
    assert_eq!(created.1, "Dune");
    assert_eq!(created.2, "Herbert");
    let id = created.0;

    let (code, outcome) = serve(&mut db, book_list());
    assert_eq!(code, 200);
    assert_eq!(the_books(outcome), vec![(id, "Dune".to_string(), "Herbert".to_string())]);

    let path = uuid::Uuid::from_u128(id).to_string();
    let (code, outcome) = serve(&mut db, book_update(&path, request("Dune", "Frank Herbert")));
    assert_eq!(code, 200);
    assert_eq!(the_book(outcome), (id, "Dune".to_string(), "Frank Herbert".to_string()));

    let (code, outcome) = serve(&mut db, book_list());
    assert_eq!(code, 200);
    assert_eq!(the_books(outcome), vec![(id, "Dune".to_string(), "Frank Herbert".to_string())]);

    assert_eq!(db.connections, 4);
    assert_eq!(db.statements, 4);
}

#[test]
fn created_books_get_identifiers_of_their_own() {
    let mut db = database();
    let first = the_book(serve(&mut db, book_create(request("Dune", "Herbert"))).1);
    let second = the_book(serve(&mut db, book_create(request("Dune", "Herbert"))).1);
    assert_ne!(first.0, second.0);
    let listed = the_books(serve(&mut db, book_list()).1);
    assert_eq!(listed.len(), 2);
    assert_eq!(listed[0], first);
    assert_eq!(listed[1], second);
}

#[test]
fn create_accepts_empty_title_and_author() {
    let mut db = database();
    let (code, outcome) = serve(&mut db, book_create(request("", "")));
    assert_eq!(code, 200);
    let created = the_book(outcome);
    assert_eq!(created.1, "");
    assert_eq!(created.2, "");
}

#[test]
fn update_changes_one_book_and_no_other() {
    let mut db = database();
    let dune = the_book(serve(&mut db, book_create(request("Dune", "Herbert"))).1);
    let emma = the_book(serve(&mut db, book_create(request("Emma", "Austen"))).1);
    let path = uuid::Uuid::from_u128(emma.0).to_string();
    let (code, outcome) = serve(&mut db, book_update(&path, request("Emma", "Jane Austen")));
    assert_eq!(code, 200);
    assert_eq!(the_book(outcome), (emma.0, "Emma".to_string(), "Jane Austen".to_string()));
    let listed = the_books(serve(&mut db, book_list()).1);
    assert_eq!(listed, vec![dune, (emma.0, "Emma".to_string(), "Jane Austen".to_string())]);
}

#[test]
fn update_is_idempotent() {
    let mut db = database();
    let dune = the_book(serve(&mut db, book_create(request("Dune", "Herbert"))).1);
    let path = uuid::Uuid::from_u128(dune.0).to_string();
    let once = the_book(serve(&mut db, book_update(&path, request("Dune", "F. Herbert"))).1);
    let twice = the_book(serve(&mut db, book_update(&path, request("Dune", "F. Herbert"))).1);
    assert_eq!(once, twice);
    assert_eq!(the_books(serve(&mut db, book_list()).1), vec![twice]);
}

#[test]
fn update_of_an_unknown_book_is_not_found() {
    let mut db = database();
    let _ = serve(&mut db, book_create(request("Dune", "Herbert")));
    let (code, outcome) = serve(
        &mut db,
        book_update("00000000-0000-4000-8000-000000000000", request("Dune", "Frank Herbert")),
    );
    assert_eq!(code, 404);
    assert_eq!(outcome.unwrap_err(), MyError::NotFound);
    let listed = the_books(serve(&mut db, book_list()).1);
    assert_eq!(listed.len(), 1);
    assert_eq!(listed[0].2, "Herbert");
}

#[test]
fn update_with_a_malformed_identifier_touches_nothing() {
    let mut db = database();
    let (code, outcome) = serve(&mut db, book_update("not-a-uuid", request("Dune", "Herbert")));
    assert_eq!(code, 400);
    assert_eq!(outcome.unwrap_err(), MyError::InvalidUuid("not-a-uuid".to_string()));
    assert_eq!(db.connections, 0);
    assert_eq!(db.statements, 0);
}

#[test]
fn fetch_of_a_user() {
    let mut db = database();
    let (code, outcome) = serve(&mut db, user_show("01234567-89ab-4cde-8f01-23456789abcd"));
    assert_eq!(code, 200);
    match outcome {
        Ok(Reply::User(user)) => {
            assert_eq!(user.id, 0x0123_4567_89ab_4cde_8f01_2345_6789_abcd);
            assert_eq!(user.name, "Ada");
        }
        other => panic!("expected a user, got {:?}", other),
    }
}

#[test]
fn fetch_of_an_unknown_user_is_not_found() {
    let mut db = database();
    let (code, outcome) = serve(&mut db, user_show("00000000-0000-4000-8000-000000000000"));
    assert_eq!(code, 404);
    assert_eq!(outcome.unwrap_err(), MyError::NotFound);
    assert_eq!(db.connections, 1);
    assert_eq!(db.statements, 1);
}

#[test]
fn fetch_with_a_malformed_identifier_touches_nothing() {
    let mut db = database();
    let (code, outcome) = serve(&mut db, user_show("not-a-uuid"));
    assert_eq!(code, 400);
    assert_eq!(outcome.unwrap_err(), MyError::InvalidUuid("not-a-uuid".to_string()));
    assert_eq!(db.connections, 0);
    assert_eq!(db.statements, 0);
}

#[test]
fn an_exhausted_pool_is_reported_before_any_statement() {
    let mut db = database();
    let step = match book_list() {
        Step::Connect(operation) => connected(operation, Err("timed out".to_string())),
        other => panic!("unexpected step {:?}", other),
    };
    let (code, outcome) = serve(&mut db, step);
    assert_eq!(code, 500);
    assert_eq!(outcome.unwrap_err(), MyError::PoolError("timed out".to_string()));
    assert_eq!(db.statements, 0);
}
