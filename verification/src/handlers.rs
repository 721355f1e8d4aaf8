//! The HTTP side of the service: its routes, and what each handler decides.
//!
//! A handler never waits for anything. It answers with a [`Step`] that tells
//! the caller what to do next: take a connection from the pool, run a
//! statement on it, or send the response. The caller does that and reports
//! the outcome to [`connected`] or [`completed`], which give the step after.

use crate::db;
use crate::db::{Statement, StatementView};
use crate::errors::{MyError, MyErrorView, STATUS_OK};
use crate::identifier::{identifier, parse_uuid, spec_identifier, uuid_parse};
use crate::models::book::{Book, BookView};
use crate::models::book_request::{BookRequest, BookRequestView};
use crate::models::user::{User, UserView};
use crate::row::{row_views, Row, RowView};
use vstd::prelude::*;

verus! {

/// The HTTP methods the service answers.
#[derive(Debug, Clone, Copy, PartialEq, Eq, Structural)]
pub enum Method {
    Get,
    Post,
    Put,
}

/// The handlers of the service.
#[derive(Debug, Clone, Copy, PartialEq, Eq, Structural)]
pub enum Handler {
    BookCreate,
    BookList,
    BookUpdate,
    UserShow,
}

/// One method of a resource and the handler that serves it.
#[derive(Debug, Clone, Copy, PartialEq, Eq, Structural)]
pub struct Route {
    pub method: Method,
    pub handler: Handler,
}

/// A path pattern and the routes registered under it. A segment in braces,
/// as in `/books/{uuid}`, is a parameter that the handler receives as text.
#[derive(Debug, PartialEq, Eq)]
pub struct Resource {
    pub path: String,
    pub routes: Vec<Route>,
}

/// Mathematical model of [`Resource`].
pub struct ResourceView {
    pub path: Seq<char>,
    pub routes: Seq<Route>,
}

impl View for Resource {
    type V = ResourceView;

    open spec fn view(&self) -> ResourceView {
        ResourceView { path: self.path@, routes: self.routes@ }
    }
}

/// The routing table of an HTTP server: its resources in the order in which
/// they were registered.
#[derive(Debug, PartialEq, Eq)]
pub struct ServiceConfig {
    pub resources: Vec<Resource>,
}

impl View for ServiceConfig {
    type V = Seq<ResourceView>;

    open spec fn view(&self) -> Seq<ResourceView> {
        self.resources@.map_values(|r: Resource| r@)
    }
}

impl Resource {
    /// A resource at `path` without routes.
    pub fn new(path: &str) -> (resource: Resource)
        ensures
            resource@ == (ResourceView { path: path@, routes: seq![] }),
    {
        Resource { path: path.to_owned(), routes: Vec::new() }
    }

    /// The same resource with one more route, placed after those it has.
    pub fn route(self, method: Method, handler: Handler) -> (resource: Resource)
        ensures
            resource@ == (ResourceView {
                path: self@.path,
                routes: self@.routes.push(Route { method, handler }),
            }),
    {
        let mut resource = self;
        resource.routes.push(Route { method, handler });
        resource
    }
}

impl ServiceConfig {
    /// An empty routing table.
    pub fn new() -> (cfg: ServiceConfig)
        ensures
            cfg@ == Seq::<ResourceView>::empty(),
    {
        let cfg = ServiceConfig { resources: Vec::new() };
        assert(cfg@ =~= Seq::<ResourceView>::empty());
        cfg
    }

    /// Registers `resource` after the resources already in the table.
    pub fn service(&mut self, resource: Resource)
        ensures
            final(self)@ == old(self)@.push(resource@),
    {
        self.resources.push(resource);
        assert(self@ =~= old(self)@.push(resource@));
    }
}

/// The resources of the service: books can be created and listed at
/// `/books` and changed at `/books/{uuid}`; users can be fetched at
/// `/users/{uuid}`.
pub open spec fn service_resources() -> Seq<ResourceView> {
    seq![
        ResourceView {
            path: "/books"@,
            routes: seq![
                Route { method: Method::Post, handler: Handler::BookCreate },
                Route { method: Method::Get, handler: Handler::BookList },
            ],
        },
        ResourceView {
            path: "/books/{uuid}"@,
            routes: seq![Route { method: Method::Put, handler: Handler::BookUpdate }],
        },
        ResourceView {
            path: "/users/{uuid}"@,
            routes: seq![Route { method: Method::Get, handler: Handler::UserShow }],
        },
    ]
}

/// Registers the resources of the service in `cfg`, after what it holds.
pub fn config(cfg: &mut ServiceConfig)
    ensures
        final(cfg)@ == old(cfg)@ + service_resources(),
{
    let books = Resource::new("/books").route(Method::Post, Handler::BookCreate).route(
        Method::Get,
        Handler::BookList,
    );
    let book = Resource::new("/books/{uuid}").route(Method::Put, Handler::BookUpdate);
    let user = Resource::new("/users/{uuid}").route(Method::Get, Handler::UserShow);
    proof {
        assert(books@.routes =~= service_resources()[0].routes);
        assert(book@.routes =~= service_resources()[1].routes);
        assert(user@.routes =~= service_resources()[2].routes);
    }
    cfg.service(books);
    cfg.service(book);
    cfg.service(user);
    assert(cfg@ =~= old(cfg)@ + service_resources());
}

/// A request that has passed validation: the operation to run on the
/// database, with its arguments.
#[derive(Debug)]
pub enum Operation {
    BookList,
    BookCreate(BookRequest),
    BookUpdate(u128, BookRequest),
    UserShow(u128),
}

/// Mathematical model of [`Operation`].
pub enum OperationView {
    BookList,
    BookCreate(BookRequestView),
    BookUpdate(u128, BookRequestView),
    UserShow(u128),
}

impl View for Operation {
    type V = OperationView;

    open spec fn view(&self) -> OperationView {
        match self {
            Operation::BookList => OperationView::BookList,
            Operation::BookCreate(book) => OperationView::BookCreate(book@),
            Operation::BookUpdate(id, book) => OperationView::BookUpdate(*id, book@),
            Operation::UserShow(id) => OperationView::UserShow(*id),
        }
    }
}

/// What a successful response carries. The caller sends it as JSON, each
/// record as an object with the record's field names.
#[derive(Debug)]
pub enum Reply {
    Books(Vec<Book>),
    Book(Book),
    User(User),
}

/// Mathematical model of [`Reply`].
pub enum ReplyView {
    Books(Seq<BookView>),
    Book(BookView),
    User(UserView),
}

impl View for Reply {
    type V = ReplyView;

    open spec fn view(&self) -> ReplyView {
        match self {
            Reply::Books(books) => ReplyView::Books(db::book_views(books@)),
            Reply::Book(book) => ReplyView::Book(book@),
            Reply::User(user) => ReplyView::User(user@),
        }
    }
}

/// Model of the outcome of a request.
pub open spec fn outcome_view(outcome: Result<Reply, MyError>) -> Result<ReplyView, MyErrorView> {
    match outcome {
        Ok(reply) => Ok(reply@),
        Err(e) => Err(e@),
    }
}

/// What the caller has to do next for a request.
#[derive(Debug)]
pub enum Step {
    /// Take a connection from the pool and report to [`connected`].
    Connect(Operation),
    /// Prepare and run the statement on the connection, release the
    /// connection, and report to [`completed`].
    Query(Operation, Statement),
    /// Send the response. The request is done.
    Respond(Result<Reply, MyError>),
}

/// Mathematical model of [`Step`].
pub enum StepView {
    Connect(OperationView),
    Query(OperationView, StatementView),
    Respond(Result<ReplyView, MyErrorView>),
}

impl View for Step {
    type V = StepView;

    open spec fn view(&self) -> StepView {
        match self {
            Step::Connect(operation) => StepView::Connect(operation@),
            Step::Query(operation, statement) => StepView::Query(operation@, statement@),
            Step::Respond(outcome) => StepView::Respond(outcome_view(*outcome)),
        }
    }
}

/// The statement of an operation.
pub open spec fn spec_statement(operation: OperationView) -> StatementView {
    match operation {
        OperationView::BookList => db::spec_book_list_statement(),
        OperationView::BookCreate(book) => db::spec_book_create_statement(book.title, book.author),
        OperationView::BookUpdate(id, book) => db::spec_book_update_statement(
            id,
            book.title,
            book.author,
        ),
        OperationView::UserShow(id) => db::spec_user_show_statement(id),
    }
}

/// The outcome of an operation whose statement returned `rows`.
pub open spec fn spec_reply(operation: OperationView, rows: Seq<RowView>) -> Result<
    ReplyView,
    MyErrorView,
> {
    match operation {
        OperationView::BookList => match db::spec_book_list(rows) {
            Ok(books) => Ok(ReplyView::Books(books)),
            Err(e) => Err(e),
        },
        OperationView::BookCreate(_) => match db::spec_book_create(rows) {
            Ok(book) => Ok(ReplyView::Book(book)),
            Err(e) => Err(e),
        },
        OperationView::BookUpdate(_, _) => match db::spec_book_update(rows) {
            Ok(book) => Ok(ReplyView::Book(book)),
            Err(e) => Err(e),
        },
        OperationView::UserShow(_) => match db::spec_user_show(rows) {
            Ok(user) => Ok(ReplyView::User(user)),
            Err(e) => Err(e),
        },
    }
}

/// The first step for a request to change a book, given what the UUID parser
/// made of the path parameter: respond with `InvalidUuid` when it is
/// malformed, connect otherwise.
pub open spec fn book_update_first_step(
    uuid: Seq<char>,
    parsed: Option<u128>,
    json: BookRequestView,
) -> StepView {
    match spec_identifier(uuid, parsed) {
        Ok(id) => StepView::Connect(OperationView::BookUpdate(id, json)),
        Err(e) => StepView::Respond(Err(e)),
    }
}

/// The first step for a request to fetch a user, given what the UUID parser
/// made of the path parameter: respond with `InvalidUuid` when it is
/// malformed, connect otherwise.
pub open spec fn user_show_first_step(uuid: Seq<char>, parsed: Option<u128>) -> StepView {
    match spec_identifier(uuid, parsed) {
        Ok(id) => StepView::Connect(OperationView::UserShow(id)),
        Err(e) => StepView::Respond(Err(e)),
    }
}

/// The step after the pool was asked for a connection: run the operation's
/// statement, or respond with `PoolError` and the pool's message.
pub open spec fn spec_connected(operation: OperationView, pool: Result<(), Seq<char>>) -> StepView {
    match pool {
        Ok(_) => StepView::Query(operation, spec_statement(operation)),
        Err(message) => StepView::Respond(Err(MyErrorView::PoolError(message))),
    }
}

/// The step after the statement was run: respond with what the rows mean, or
/// with `QueryError` and the driver's message.
pub open spec fn spec_completed(
    operation: OperationView,
    result: Result<Seq<RowView>, Seq<char>>,
) -> StepView {
    match result {
        Ok(rows) => StepView::Respond(spec_reply(operation, rows)),
        Err(message) => StepView::Respond(Err(MyErrorView::QueryError(message))),
    }
}

/// The HTTP status of a response: 200 for a reply, the error's status
/// otherwise.
pub open spec fn spec_status(outcome: Result<ReplyView, MyErrorView>) -> u16 {
    match outcome {
        Ok(_) => STATUS_OK,
        Err(e) => e.status_code(),
    }
}

/// Model of what the pool reported.
pub open spec fn pool_view(pool: Result<(), String>) -> Result<(), Seq<char>> {
    match pool {
        Ok(_) => Ok(()),
        Err(message) => Err(message@),
    }
}

/// Model of what running a statement reported.
pub open spec fn result_view(result: Result<Vec<Row>, String>) -> Result<Seq<RowView>, Seq<char>> {
    match result {
        Ok(rows) => Ok(row_views(rows@)),
        Err(message) => Err(message@),
    }
}

impl Operation {
    /// The statement to run for this operation.
    pub fn statement(&self) -> (statement: Statement)
        ensures
            statement@ == spec_statement(self@),
    {
        match self {
            Operation::BookList => db::book_list_statement(),
            Operation::BookCreate(book) => db::book_create_statement(book),
            Operation::BookUpdate(id, book) => db::book_update_statement(*id, book),
            Operation::UserShow(id) => db::user_show_statement(*id),
        }
    }

    /// The outcome of this operation, given the rows its statement returned.
    pub fn reply(&self, rows: &Vec<Row>) -> (outcome: Result<Reply, MyError>)
        ensures
            outcome_view(outcome) == spec_reply(self@, row_views(rows@)),
    {
        match self {
            Operation::BookList => match db::book_list(rows) {
                Ok(books) => Ok(Reply::Books(books)),
                Err(e) => Err(e),
            },
            Operation::BookCreate(_) => match db::book_create(rows) {
                Ok(book) => Ok(Reply::Book(book)),
                Err(e) => Err(e),
            },
            Operation::BookUpdate(_, _) => match db::book_update(rows) {
                Ok(book) => Ok(Reply::Book(book)),
                Err(e) => Err(e),
            },
            Operation::UserShow(_) => match db::user_show(rows) {
                Ok(user) => Ok(Reply::User(user)),
                Err(e) => Err(e),
            },
        }
    }
}

/// Handles `POST /books`: the body needs no validation, so the first step is
/// to connect.
pub fn book_create(json: BookRequest) -> (step: Step)
    ensures
        step@ == StepView::Connect(OperationView::BookCreate(json@)),
{
    Step::Connect(Operation::BookCreate(json))
}

/// Handles `GET /books`: the first step is to connect.
pub fn book_list() -> (step: Step)
    ensures
        step@ == StepView::Connect(OperationView::BookList),
{
    Step::Connect(Operation::BookList)
}

/// The first step of `PUT /books/{uuid}`, given what the UUID parser made of
/// `uuid`.
pub fn book_update_parsed(uuid: &str, parsed: Option<u128>, json: BookRequest) -> (step: Step)
    ensures
        step@ == book_update_first_step(uuid@, parsed, json@),
{
    match identifier(uuid, parsed) {
        Ok(id) => Step::Connect(Operation::BookUpdate(id, json)),
        Err(e) => Step::Respond(Err(e)),
    }
}

/// The first step of `GET /users/{uuid}`, given what the UUID parser made of
/// `uuid`.
pub fn user_show_parsed(uuid: &str, parsed: Option<u128>) -> (step: Step)
    ensures
        step@ == user_show_first_step(uuid@, parsed),
{
    match identifier(uuid, parsed) {
        Ok(id) => Step::Connect(Operation::UserShow(id)),
        Err(e) => Step::Respond(Err(e)),
    }
}

/// Handles `PUT /books/{uuid}`. A malformed `uuid` is answered at once with
/// `InvalidUuid`, before a connection is asked for.
pub fn book_update(uuid: &str, json: BookRequest) -> (step: Step)
    ensures
        step@ == book_update_first_step(uuid@, uuid_parse(uuid@), json@),
{
    let parsed = parse_uuid(uuid);
    book_update_parsed(uuid, parsed, json)
}

/// Handles `GET /users/{uuid}`. A malformed `uuid` is answered at once with
/// `InvalidUuid`, before a connection is asked for.
pub fn user_show(uuid: &str) -> (step: Step)
    ensures
        step@ == user_show_first_step(uuid@, uuid_parse(uuid@)),
{
    let parsed = parse_uuid(uuid);
    user_show_parsed(uuid, parsed)
}

/// Continues a request after [`Step::Connect`]. `pool` is `Ok` when the pool
/// handed out a connection and holds the pool's message when it did not.
pub fn connected(operation: Operation, pool: Result<(), String>) -> (step: Step)
    ensures
        step@ == spec_connected(operation@, pool_view(pool)),
{
    match pool {
        Ok(_) => {
            let statement = operation.statement();
            Step::Query(operation, statement)
        },
        Err(message) => Step::Respond(Err(MyError::PoolError(message))),
    }
}

/// Continues a request after [`Step::Query`]. `result` holds the rows that
/// the statement returned, or the driver's message when preparing or running
/// it failed. The step is always [`Step::Respond`].
pub fn completed(operation: &Operation, result: Result<Vec<Row>, String>) -> (step: Step)
    ensures
        step@ == spec_completed(operation@, result_view(result)),
{
    match result {
        Ok(rows) => Step::Respond(operation.reply(&rows)),
        Err(message) => Step::Respond(Err(MyError::QueryError(message))),
    }
}

/// The HTTP status to send with a response.
pub fn status(outcome: &Result<Reply, MyError>) -> (code: u16)
    ensures
        code == spec_status(outcome_view(*outcome)),
{
    match outcome {
        Ok(_) => STATUS_OK,
        Err(e) => e.status_code(),
    }
}

} // verus!
