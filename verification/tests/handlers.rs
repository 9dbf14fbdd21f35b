use todo::error::{STATUS_INTERNAL_ERROR, STATUS_NOT_FOUND};
use todo::handlers::{fail, STATUS_OK};
use todo::{
    alive, ping, todo_create, todo_delete, todo_list, todo_read, todo_update, Body, CreateTodo,
    Error, Param, Reply, Todo,
};

fn milk(id: i64) -> Todo {
    Todo {
        id,
        body: "buy milk".to_string(),
        completed: false,
        created_at: 1_700_000_000_000_000,
        updated_at: 1_700_000_000_000_000,
    }
}

fn error_body(message: &str) -> Body {
    Body::Envelope { status: "error".to_string(), message: message.to_string() }
}

#[test]
fn status_codes() {
    assert_eq!(STATUS_OK, 200);
    assert_eq!(STATUS_NOT_FOUND, 404);
    assert_eq!(STATUS_INTERNAL_ERROR, 500);
}

#[test]
fn status_of_each_error() {
    assert_eq!(Error::NotFound.status(), 404);
    assert_eq!(Error::Query("q".to_string()).status(), 500);
    assert_eq!(Error::Config("c".to_string()).status(), 500);
    assert_eq!(Error::Connection("n".to_string()).status(), 500);
    assert_eq!(Error::Serialization("s".to_string()).status(), 500);
}

#[test]
fn message_of_each_error() {
    assert_eq!(Error::NotFound.message(), "todo not found");
    assert_eq!(Error::Query("q".to_string()).message(), "q");
    assert_eq!(Error::Config("c".to_string()).message(), "c");
    assert_eq!(Error::Connection("n".to_string()).message(), "n");
    assert_eq!(Error::Serialization("s".to_string()).message(), "s");
}

#[test]
fn failure_is_answered_by_what_failed() {
    assert_eq!(fail(Error::NotFound), Reply { status: 404, body: error_body("todo not found") });
    assert_eq!(
        fail(Error::Query("relation todos does not exist".to_string())),
        Reply { status: 500, body: error_body("relation todos does not exist") }
    );
    assert_eq!(
        fail(Error::Serialization("no timestamp".to_string())),
        Reply { status: 500, body: error_body("no timestamp") }
    );
    assert_eq!(
        fail(Error::Config("no such file".to_string())),
        Reply { status: 500, body: error_body("no such file") }
    );
    assert_eq!(
        fail(Error::Connection("refused".to_string())),
        Reply { status: 500, body: error_body("refused") }
    );
}

#[test]
fn alive_says_ok() {
    assert_eq!(alive(), Reply { status: 200, body: Body::Text("ok".to_string()) });
}

#[test]
fn ping_says_success() {
    let expected = Body::Envelope {
        status: "success".to_string(),
        message: "hello from todo-api".to_string(),
    };
    assert_eq!(ping(), Reply { status: 200, body: expected });
}

#[test]
fn list_is_answered_with_the_rows() {
    let reply = todo_list(Ok(vec![milk(1), milk(2)]));
    assert_eq!(reply, Reply { status: 200, body: Body::Todos(vec![milk(1), milk(2)]) });
}

#[test]
fn list_of_nothing_is_answered_with_no_rows() {
    assert_eq!(todo_list(Ok(Vec::new())), Reply { status: 200, body: Body::Todos(Vec::new()) });
}

#[test]
fn list_answer_holds_at_most_ten() {
    let mut fetched = Vec::new();
    for id in 1..=15 {
        fetched.push(milk(id));
    }
    match todo_list(Ok(fetched)).body {
        Body::Todos(rows) => {
            assert_eq!(rows.len(), 10);
            assert_eq!(rows[0].id, 1);
            assert_eq!(rows[9].id, 10);
        }
        other => panic!("unexpected body {:?}", other),
    }
}

#[test]
fn list_failure_is_answered_with_500() {
    let reply = todo_list(Err("connection reset".to_string()));
    assert_eq!(reply, Reply { status: 500, body: error_body("connection reset") });
}

#[test]
fn created_todo_is_read_back() {
    let new_todo = CreateTodo { body: "buy milk".to_string() };
    let insert = Todo::create_statement(&new_todo);
    assert_eq!(insert.params, vec![Param::Text("buy milk".to_string())]);
    let created = todo_create(Ok(vec![milk(12)]));
    assert_eq!(created, Reply { status: 200, body: Body::Todo(milk(12)) });
    let id = match created.body {
        Body::Todo(row) => row.id,
        other => panic!("unexpected body {:?}", other),
    };
    let select = Todo::read_statement(id);
    assert_eq!(select.params, vec![Param::Int(12)]);
    match todo_read(Ok(vec![milk(12)]), id).body {
        Body::Todo(row) => {
            assert_eq!(row.body, "buy milk");
            assert!(!row.completed);
            assert_eq!(row.created_at, row.updated_at);
        }
        other => panic!("unexpected body {:?}", other),
    }
}

#[test]
fn missing_todo_is_answered_with_404() {
    let expected = Reply { status: 404, body: error_body("todo not found") };
    assert_eq!(Todo::read_statement(-1).params, vec![Param::Int(-1)]);
    assert_eq!(todo_read(Ok(Vec::new()), -1), expected);
    assert_eq!(todo_update(Ok(Vec::new()), -1), expected);
    assert_eq!(todo_delete(Ok(Vec::new()), -1), expected);
}

#[test]
fn row_of_another_todo_is_answered_with_404() {
    let expected = Reply { status: 404, body: error_body("todo not found") };
    assert_eq!(todo_read(Ok(vec![milk(2)]), 1), expected);
    assert_eq!(todo_update(Ok(vec![milk(2)]), 1), expected);
    assert_eq!(todo_delete(Ok(vec![milk(2)]), 1), expected);
}

#[test]
fn several_rows_for_one_id_are_answered_with_404() {
    let expected = Reply { status: 404, body: error_body("todo not found") };
    assert_eq!(todo_read(Ok(vec![milk(1), milk(1)]), 1), expected);
    assert_eq!(todo_update(Ok(vec![milk(1), milk(1)]), 1), expected);
    assert_eq!(todo_delete(Ok(vec![milk(1), milk(1)]), 1), expected);
}

#[test]
fn database_failure_is_answered_with_500() {
    let expected = Reply { status: 500, body: error_body("server closed the connection") };
    let failure = || Err("server closed the connection".to_string());
    assert_eq!(todo_read(failure(), 1), expected);
    assert_eq!(todo_create(failure()), expected);
    assert_eq!(todo_update(failure(), 1), expected);
    assert_eq!(todo_delete(failure(), 1), expected);
}

#[test]
fn insert_without_a_row_is_answered_with_500() {
    let reply = todo_create(Ok(Vec::new()));
    assert_eq!(
        reply,
        Reply { status: 500, body: error_body("the insert did not return exactly one row") }
    );
}

#[test]
fn update_is_answered_with_the_row() {
    let mut changed = milk(4);
    changed.completed = true;
    changed.updated_at += 1_000_000;
    let reply = todo_update(Ok(vec![changed.clone()]), 4);
    assert_eq!(reply, Reply { status: 200, body: Body::Todo(changed) });
}

#[test]
fn deleted_todo_is_not_read_again() {
    let deleted = todo_delete(Ok(vec![milk(4)]), 4);
    assert_eq!(deleted, Reply { status: 200, body: Body::Todo(milk(4)) });
    let read = todo_read(Ok(Vec::new()), 4);
    assert_eq!(read.status, 404);
}
