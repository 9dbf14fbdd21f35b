use crate::error::{Error, ErrorView, STATUS_INTERNAL_ERROR, STATUS_NOT_FOUND};
use crate::queries::MAX_ROWS;
use crate::repository::{
    deep, found, inserted, listed, matching, Fetched, FetchedView, Todo, TodoView,
};
use vstd::prelude::*;
use vstd::string::*;

verus! {

/// Status of an answer to a request that was served.
pub const STATUS_OK: u16 = 200;

/// What an answer carries.
#[derive(Clone, Debug, PartialEq, Eq)]
pub enum Body {
    /// Plain text.
    Text(String),
    /// A status word and a message, sent as one object.
    Envelope { status: String, message: String },
    /// One todo.
    Todo(Todo),
    /// Todos, in the order in which they are sent.
    Todos(Vec<Todo>),
}

/// A [`Body`] as a mathematical value.
pub enum BodyView {
    Text(Seq<char>),
    Envelope { status: Seq<char>, message: Seq<char> },
    Todo(TodoView),
    Todos(Seq<TodoView>),
}

impl View for Body {
    type V = BodyView;

    open spec fn view(&self) -> BodyView {
        match self {
            Body::Text(text) => BodyView::Text(text@),
            Body::Envelope { status, message } => BodyView::Envelope {
                status: status@,
                message: message@,
            },
            Body::Todo(row) => BodyView::Todo(row@),
            Body::Todos(rows) => BodyView::Todos(rows.deep_view()),
        }
    }
}

/// The answer to one request.
#[derive(Clone, Debug, PartialEq, Eq)]
pub struct Reply {
    pub status: u16,
    pub body: Body,
}

/// A [`Reply`] as a mathematical value.
pub struct ReplyView {
    pub status: u16,
    pub body: BodyView,
}

impl View for Reply {
    type V = ReplyView;

    open spec fn view(&self) -> ReplyView {
        ReplyView { status: self.status, body: self.body@ }
    }
}

/// The answer to a request that ended in `error`: the status that belongs to
/// the error, and an envelope with the word `error` and the error's text.
pub open spec fn failure(error: ErrorView) -> ReplyView {
    ReplyView {
        status: error.status(),
        body: BodyView::Envelope { status: "error"@, message: error.message() },
    }
}

/// The answer to a request for one todo that ended in `outcome`.
pub open spec fn row_reply(outcome: Result<TodoView, ErrorView>) -> ReplyView {
    match outcome {
        Ok(row) => ReplyView { status: STATUS_OK, body: BodyView::Todo(row) },
        Err(error) => failure(error),
    }
}

/// The answer to a request for the list that ended in `outcome`.
pub open spec fn rows_reply(outcome: Result<Seq<TodoView>, ErrorView>) -> ReplyView {
    match outcome {
        Ok(rows) => ReplyView { status: STATUS_OK, body: BodyView::Todos(rows) },
        Err(error) => failure(error),
    }
}

/// The answer that tells that the process is up.
pub open spec fn alive_reply() -> ReplyView {
    ReplyView { status: STATUS_OK, body: BodyView::Text("ok"@) }
}

/// The answer that tells that the service is ready.
pub open spec fn ready_reply() -> ReplyView {
    ReplyView {
        status: STATUS_OK,
        body: BodyView::Envelope { status: "success"@, message: "hello from todo-api"@ },
    }
}

/// Answers a request that ended in `error`: with 404 where nothing was found,
/// with 500 after any other error, and with the error's text either way.
pub fn fail(error: Error) -> (reply: Reply)
    ensures
        reply@ == failure(error@),
        error is NotFound ==> reply.status == STATUS_NOT_FOUND,
        !(error is NotFound) ==> reply.status == STATUS_INTERNAL_ERROR,
{
    Reply {
        status: error.status(),
        body: Body::Envelope { status: String::from_str("error"), message: error.message() },
    }
}

fn answer_row(outcome: Result<Todo, Error>) -> (reply: Reply)
    ensures
        reply@ == row_reply(deep(outcome)),
{
    match outcome {
        Ok(row) => Reply { status: STATUS_OK, body: Body::Todo(row) },
        Err(error) => fail(error),
    }
}

/// Answers `GET /todos`, given what the listing's statement fetched.
pub fn todo_list(fetched: Fetched) -> (reply: Reply)
    ensures
        reply@ == rows_reply(listed(deep(fetched))),
        reply.body matches Body::Todos(rows) ==> rows.len() <= MAX_ROWS,
{
    match Todo::list(fetched) {
        Ok(rows) => Reply { status: STATUS_OK, body: Body::Todos(rows) },
        Err(error) => fail(error),
    }
}

/// Answers `GET /todos/:id`, given what the read's statement fetched.
pub fn todo_read(fetched: Fetched, id: i64) -> (reply: Reply)
    ensures
        reply@ == row_reply(found(deep(fetched), id as int)),
        reply.body matches Body::Todo(row) ==> row.id == id,
        fetched matches Ok(rows) && rows.len() == 0 ==> reply.status == STATUS_NOT_FOUND,
{
    proof {
        lemma_row_reply_status(deep(fetched), id as int);
    }
    answer_row(Todo::read(fetched, id))
}

/// Answers `POST /todos`, given what the insert fetched.
pub fn todo_create(fetched: Fetched) -> (reply: Reply)
    ensures
        reply@ == row_reply(inserted(deep(fetched))),
{
    answer_row(Todo::create(fetched))
}

/// Answers `PUT /todos/:id`, given what the update fetched.
pub fn todo_update(fetched: Fetched, id: i64) -> (reply: Reply)
    ensures
        reply@ == row_reply(found(deep(fetched), id as int)),
        reply.body matches Body::Todo(row) ==> row.id == id,
        fetched matches Ok(rows) && rows.len() == 0 ==> reply.status == STATUS_NOT_FOUND,
{
    proof {
        lemma_row_reply_status(deep(fetched), id as int);
    }
    answer_row(Todo::update(fetched, id))
}

/// Answers `DELETE /todos/:id`, given what the delete fetched.
pub fn todo_delete(fetched: Fetched, id: i64) -> (reply: Reply)
    ensures
        reply@ == row_reply(found(deep(fetched), id as int)),
        reply.body matches Body::Todo(row) ==> row.id == id,
        fetched matches Ok(rows) && rows.len() == 0 ==> reply.status == STATUS_NOT_FOUND,
{
    proof {
        lemma_row_reply_status(deep(fetched), id as int);
    }
    answer_row(Todo::delete(fetched, id))
}

/// Answers `GET /alive`.
pub fn alive() -> (reply: Reply)
    ensures
        reply@ == alive_reply(),
{
    Reply { status: STATUS_OK, body: Body::Text(String::from_str("ok")) }
}

/// Answers `GET /ready`.
pub fn ping() -> (reply: Reply)
    ensures
        reply@ == ready_reply(),
{
    let msg = "hello from todo-api";
    Reply {
        status: STATUS_OK,
        body: Body::Envelope {
            status: String::from_str("success"),
            message: String::from_str(msg),
        },
    }
}

/// A request for the todo `id` is answered with 200 and the todo where exactly
/// one of the rows that its statement fetched stands under `id`, with 404
/// where none or several do, and with 500 where the database failed: never
/// with anything else. Where nothing was fetched, the answer is 404.
pub proof fn lemma_row_reply_status(fetched: FetchedView, id: int)
    ensures
        row_reply(found(fetched, id)).status == (match fetched {
            Ok(rows) => if matching(rows, id).len() == 1 {
                STATUS_OK
            } else {
                STATUS_NOT_FOUND
            },
            Err(_) => STATUS_INTERNAL_ERROR,
        }),
        fetched matches Ok(rows) && rows.len() == 0 ==> row_reply(found(fetched, id)).status
            == STATUS_NOT_FOUND,
{
    if let Ok(rows) = fetched {
        rows.lemma_filter_len(|row: TodoView| row.id == id);
    }
}

/// A request for the list is answered with 200 unless the database failed, and
/// a request to create a todo with 200 where the insert returned its row: each
/// with 500 otherwise, and neither ever with 404.
pub proof fn lemma_list_and_create_reply_status(fetched: FetchedView)
    ensures
        rows_reply(listed(fetched)).status == if fetched is Ok {
            STATUS_OK
        } else {
            STATUS_INTERNAL_ERROR
        },
        row_reply(inserted(fetched)).status == if fetched matches Ok(rows) && rows.len() == 1 {
            STATUS_OK
        } else {
            STATUS_INTERNAL_ERROR
        },
{
}

} // verus!
