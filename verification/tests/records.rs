use book_service::errors::MyError;
use book_service::models::{Book, BookRequest, User};
use book_service::row::{Row, Value};

fn text(s: &str) -> Value {
    Value::Text(s.to_string())
}

fn book_row(id: u128, title: &str, author: &str) -> Row {
    let mut row = Row::new();
    row.push("uuid", Value::Uuid(id));
    row.push("title", text(title));
    row.push("author", text(author));
    row
}

#[test]
fn book_is_read_from_its_three_columns() {
    let book = Book::from_row(&book_row(7, "Dune", "Herbert")).unwrap();
    assert_eq!(book.id, 7);
    assert_eq!(book.title, "Dune");
    assert_eq!(book.author, "Herbert");
}

#[test]
fn book_columns_may_come_in_any_order_and_with_others() {
    let mut row = Row::new();
    row.push("author", text("Herbert"));
    row.push("pages", Value::Other);
    row.push("title", text("Dune"));
    row.push("uuid", Value::Uuid(8));
    let book = Book::from_row(&row).unwrap();
    assert_eq!(book.id, 8);
    assert_eq!(book.title, "Dune");
    assert_eq!(book.author, "Herbert");
}

#[test]
fn book_may_have_empty_title_and_author() {
    let book = Book::from_row(&book_row(0, "", "")).unwrap();
    assert_eq!(book.id, 0);
    assert_eq!(book.title, "");
    assert_eq!(book.author, "");
}

#[test]
fn book_needs_all_three_columns() {
    let mut no_id = Row::new();
    no_id.push("title", text("Dune"));
    no_id.push("author", text("Herbert"));
    assert_eq!(Book::from_row(&no_id).unwrap_err(), MyError::MappingError);

    let mut no_title = Row::new();
    no_title.push("uuid", Value::Uuid(1));
    no_title.push("author", text("Herbert"));
    assert_eq!(Book::from_row(&no_title).unwrap_err(), MyError::MappingError);

    let mut no_author = Row::new();
    no_author.push("uuid", Value::Uuid(1));
    no_author.push("title", text("Dune"));
    assert_eq!(Book::from_row(&no_author).unwrap_err(), MyError::MappingError);

    assert_eq!(Book::from_row(&Row::new()).unwrap_err(), MyError::MappingError);
}

#[test]
fn book_columns_must_have_the_right_type() {
    let mut null_title = Row::new();
    null_title.push("uuid", Value::Uuid(1));
    null_title.push("title", Value::Null);
    null_title.push("author", text("Herbert"));
    assert_eq!(Book::from_row(&null_title).unwrap_err(), MyError::MappingError);

    let mut text_id = Row::new();
    text_id.push("uuid", text("1"));
    text_id.push("title", text("Dune"));
    text_id.push("author", text("Herbert"));
    assert_eq!(Book::from_row(&text_id).unwrap_err(), MyError::MappingError);

    let mut other_author = Row::new();
    other_author.push("uuid", Value::Uuid(1));
    other_author.push("title", text("Dune"));
    other_author.push("author", Value::Other);
    assert_eq!(Book::from_row(&other_author).unwrap_err(), MyError::MappingError);
}

#[test]
fn user_is_read_from_its_two_columns() {
    let mut row = Row::new();
    row.push("uuid", Value::Uuid(11));
    row.push("name", text("Ada"));
    let user = User::from_row(&row).unwrap();
    assert_eq!(user.id, 11);
    assert_eq!(user.name, "Ada");
}

#[test]
fn user_needs_both_columns_with_the_right_type() {
    let mut no_name = Row::new();
    no_name.push("uuid", Value::Uuid(11));
    assert_eq!(User::from_row(&no_name).unwrap_err(), MyError::MappingError);

    let mut no_id = Row::new();
    no_id.push("name", text("Ada"));
    assert_eq!(User::from_row(&no_id).unwrap_err(), MyError::MappingError);

    let mut null_name = Row::new();
    null_name.push("uuid", Value::Uuid(11));
    null_name.push("name", Value::Null);
    assert_eq!(User::from_row(&null_name).unwrap_err(), MyError::MappingError);

    let mut a_book = Row::new();
    a_book.push("uuid", Value::Uuid(11));
    a_book.push("title", text("Dune"));
    a_book.push("author", text("Herbert"));
    assert_eq!(User::from_row(&a_book).unwrap_err(), MyError::MappingError);
}

#[test]
fn books_are_equal_when_their_identifiers_are() {
    let a = Book { id: 1, title: "Dune".to_string(), author: "Herbert".to_string() };
    let b = Book { id: 1, title: "Dune".to_string(), author: "Frank Herbert".to_string() };
    let c = Book { id: 2, title: "Dune".to_string(), author: "Herbert".to_string() };
    assert!(a == b);
    assert!(a != c);
}

#[test]
fn users_are_equal_when_their_identifiers_are() {
    let a = User { id: 1, name: "Ada".to_string() };
    let b = User { id: 1, name: "Grace".to_string() };
    let c = User { id: 2, name: "Ada".to_string() };
    assert!(a == b);
    assert!(a != c);
}

#[test]
fn record_clones_keep_every_field() {
    let book = Book { id: 5, title: "Dune".to_string(), author: "Herbert".to_string() };
    let copy = book.clone();
    assert_eq!(copy.id, 5);
    assert_eq!(copy.title, "Dune");
    assert_eq!(copy.author, "Herbert");

    let user = User { id: 6, name: "Ada".to_string() };
    let copy = user.clone();
    assert_eq!(copy.id, 6);
    assert_eq!(copy.name, "Ada");

    let request = BookRequest { title: "Dune".to_string(), author: "Herbert".to_string() };
    let copy = request.clone();
    assert_eq!(copy.title, "Dune");
    assert_eq!(copy.author, "Herbert");
}

#[test]
fn book_goes_to_a_row_and_back() {
    let book = Book { id: 0x550e8400_e29b_41d4_a716_446655440000, title: "Dune".to_string(), author: "Herbert".to_string() };
    let row = book.to_row();
    assert_eq!(row, book_row(0x550e8400_e29b_41d4_a716_446655440000, "Dune", "Herbert"));
    let back = Book::from_row(&row).unwrap();
    assert_eq!(back.id, book.id);
    assert_eq!(back.title, book.title);
    assert_eq!(back.author, book.author);
}

#[test]
fn user_goes_to_a_row_and_back() {
    let user = User { id: 17, name: "Ada".to_string() };
    let row = user.to_row();
    assert_eq!(row.get("uuid"), Some(&Value::Uuid(17)));
    assert_eq!(row.get("name"), Some(&text("Ada")));
    let back = User::from_row(&row).unwrap();
    assert_eq!(back.id, 17);
    assert_eq!(back.name, "Ada");
}
