use todo::queries::{MAX_ROWS, TODO_TABLE_NAME};
use todo::repository::NO_ROW_INSERTED;
use todo::{CreateTodo, Error, Fetched, Param, Todo, UpdateTodo};

fn row(id: i64, body: &str) -> Todo {
    Todo {
        id,
        body: body.to_string(),
        completed: false,
        created_at: 1_700_000_000_000_000,
        updated_at: 1_700_000_000_000_000,
    }
}

fn rows(n: i64) -> Vec<Todo> {
    let mut all = Vec::new();
    for id in 1..=n {
        all.push(row(id, &format!("todo {}", id)));
    }
    all
}

#[test]
fn get_all() {
    let fetched: Fetched = Ok(vec![row(1, "foo"), row(2, "bar")]);
    let all_rows = Todo::list(fetched).unwrap();
    assert!(!all_rows.is_empty());
}

#[test]
fn get_one() {
    let fetched: Fetched = Ok(vec![row(1, "foo")]);
    let todo = Todo::read(fetched, 1).unwrap();
    assert_eq!(1, todo.id);
    assert_eq!("foo".to_string(), todo.body);
}

#[test]
fn constants() {
    assert_eq!(MAX_ROWS, 10);
    assert_eq!(TODO_TABLE_NAME, "todos");
}

#[test]
fn list_statement_text() {
    let statement = Todo::list_statement();
    assert_eq!(statement.sql, "select * from todos limit 10;");
    assert_eq!(statement.params, Vec::<Param>::new());
}

#[test]
fn read_statement_text() {
    let statement = Todo::read_statement(42);
    assert_eq!(statement.sql, "select * from todos where id = $1");
    assert_eq!(statement.params, vec![Param::Int(42)]);
}

#[test]
fn read_statement_of_negative_id() {
    let statement = Todo::read_statement(-1);
    assert_eq!(statement.params, vec![Param::Int(-1)]);
}

#[test]
fn create_statement_text() {
    let new_todo = CreateTodo { body: "buy milk".to_string() };
    let statement = Todo::create_statement(&new_todo);
    assert_eq!(statement.sql, "insert into todos (body) values ($1) returning *");
    assert_eq!(statement.params, vec![Param::Text("buy milk".to_string())]);
}

#[test]
fn update_statement_text() {
    let update = UpdateTodo { body: "buy oat milk".to_string(), completed: true };
    let statement = Todo::update_statement(7, &update);
    assert_eq!(
        statement.sql,
        "update todos set body = $1, completed = $2, updated_at = now()::timestamp where id = $3 returning *"
    );
    assert_eq!(
        statement.params,
        vec![Param::Text("buy oat milk".to_string()), Param::Bool(true), Param::Int(7)]
    );
}

#[test]
fn delete_statement_text() {
    let statement = Todo::delete_statement(9);
    assert_eq!(statement.sql, "delete from todos where id = $1 returning *");
    assert_eq!(statement.params, vec![Param::Int(9)]);
}

#[test]
fn getters() {
    let new_todo = CreateTodo { body: "a".to_string() };
    assert_eq!(new_todo.body(), "a");
    let update = UpdateTodo { body: "b".to_string(), completed: true };
    assert_eq!(update.body(), "b");
    assert!(update.completed());
}

#[test]
fn list_of_fifteen_is_capped_at_ten() {
    let kept = Todo::list(Ok(rows(15))).unwrap();
    assert_eq!(kept, rows(10));
}

#[test]
fn list_of_ten_is_kept_whole() {
    assert_eq!(Todo::list(Ok(rows(10))).unwrap(), rows(10));
}

#[test]
fn list_of_eleven_loses_the_last() {
    assert_eq!(Todo::list(Ok(rows(11))).unwrap(), rows(10));
}

#[test]
fn list_of_none_is_empty() {
    assert_eq!(Todo::list(Ok(Vec::new())).unwrap(), Vec::<Todo>::new());
}

#[test]
fn list_keeps_the_order_fetched() {
    let fetched = vec![row(3, "c"), row(1, "a"), row(2, "b")];
    assert_eq!(Todo::list(Ok(fetched.clone())).unwrap(), fetched);
}

#[test]
fn list_failure_is_a_query_error() {
    let res = Todo::list(Err("connection reset".to_string()));
    assert_eq!(res, Err(Error::Query("connection reset".to_string())));
}

#[test]
fn read_of_no_row_is_not_found() {
    assert_eq!(Todo::read(Ok(Vec::new()), 1), Err(Error::NotFound));
    assert_eq!(Todo::read(Ok(Vec::new()), -1), Err(Error::NotFound));
}

#[test]
fn read_of_another_row_is_not_found() {
    assert_eq!(Todo::read(Ok(vec![row(2, "bar")]), 1), Err(Error::NotFound));
}

#[test]
fn read_picks_the_row_with_the_id() {
    let fetched = vec![row(2, "bar"), row(1, "foo"), row(3, "baz")];
    assert_eq!(Todo::read(Ok(fetched.clone()), 1), Ok(row(1, "foo")));
    assert_eq!(Todo::read(Ok(fetched.clone()), 2), Ok(row(2, "bar")));
    assert_eq!(Todo::read(Ok(fetched.clone()), 3), Ok(row(3, "baz")));
    assert_eq!(Todo::read(Ok(fetched), 4), Err(Error::NotFound));
}

#[test]
fn read_of_one_id_twice_is_not_found() {
    let fetched = vec![row(1, "foo"), row(2, "bar"), row(1, "again")];
    assert_eq!(Todo::read(Ok(fetched.clone()), 1), Err(Error::NotFound));
    assert_eq!(Todo::read(Ok(fetched), 2), Ok(row(2, "bar")));
}

#[test]
fn read_of_two_rows_with_the_id_is_not_found() {
    assert_eq!(Todo::read(Ok(vec![row(5, "a"), row(5, "b")]), 5), Err(Error::NotFound));
}

#[test]
fn read_failure_is_a_query_error() {
    let res = Todo::read(Err("syntax error".to_string()), 1);
    assert_eq!(res, Err(Error::Query("syntax error".to_string())));
}

#[test]
fn create_returns_the_row() {
    assert_eq!(Todo::create(Ok(vec![row(5, "buy milk")])), Ok(row(5, "buy milk")));
}

#[test]
fn create_without_a_row_is_a_query_error() {
    let res = Todo::create(Ok(Vec::new()));
    assert_eq!(res, Err(Error::Query(NO_ROW_INSERTED.to_string())));
    assert_eq!(NO_ROW_INSERTED, "the insert did not return exactly one row");
}

#[test]
fn create_with_two_rows_is_a_query_error() {
    let res = Todo::create(Ok(rows(2)));
    assert_eq!(res, Err(Error::Query(NO_ROW_INSERTED.to_string())));
}

#[test]
fn create_failure_is_a_query_error() {
    let res = Todo::create(Err("disk full".to_string()));
    assert_eq!(res, Err(Error::Query("disk full".to_string())));
}

#[test]
fn update_returns_the_row() {
    let mut changed = row(7, "buy oat milk");
    changed.completed = true;
    changed.updated_at += 5;
    assert_eq!(Todo::update(Ok(vec![changed.clone()]), 7), Ok(changed));
}

#[test]
fn update_of_no_row_is_not_found() {
    assert_eq!(Todo::update(Ok(Vec::new()), 7), Err(Error::NotFound));
    assert_eq!(Todo::update(Ok(vec![row(8, "other")]), 7), Err(Error::NotFound));
}

#[test]
fn update_failure_is_a_query_error() {
    let res = Todo::update(Err("deadlock".to_string()), 7);
    assert_eq!(res, Err(Error::Query("deadlock".to_string())));
}

#[test]
fn delete_returns_the_row() {
    assert_eq!(Todo::delete(Ok(vec![row(9, "gone")]), 9), Ok(row(9, "gone")));
}

#[test]
fn delete_of_no_row_is_not_found() {
    assert_eq!(Todo::delete(Ok(Vec::new()), 9), Err(Error::NotFound));
    assert_eq!(Todo::delete(Ok(vec![row(8, "other")]), 9), Err(Error::NotFound));
}

#[test]
fn delete_failure_is_a_query_error() {
    let res = Todo::delete(Err("timeout".to_string()), 9);
    assert_eq!(res, Err(Error::Query("timeout".to_string())));
}

#[test]
fn same_update_twice_gives_the_same_statement() {
    let update = UpdateTodo { body: "water plants".to_string(), completed: true };
    let first = Todo::update_statement(3, &update);
    let second = Todo::update_statement(3, &update);
    assert_eq!(first, second);
    let mut a = row(3, "water plants");
    a.completed = true;
    a.updated_at += 10;
    let mut b = a.clone();
    b.updated_at += 10;
    let one = Todo::update(Ok(vec![a]), 3).unwrap();
    let two = Todo::update(Ok(vec![b]), 3).unwrap();
    assert_eq!(one.body, two.body);
    assert_eq!(one.completed, two.completed);
    assert!(one.updated_at <= two.updated_at);
}

#[test]
fn many_creates_keep_every_row() {
    let mut ids = Vec::new();
    for id in 1..=20 {
        let new_todo = CreateTodo { body: format!("todo {}", id) };
        let statement = Todo::create_statement(&new_todo);
        assert_eq!(statement.params, vec![Param::Text(format!("todo {}", id))]);
        let made = Todo::create(Ok(vec![row(id, &format!("todo {}", id))])).unwrap();
        assert_eq!(made.body, format!("todo {}", id));
        assert!(!ids.contains(&made.id));
        ids.push(made.id);
    }
    assert_eq!(ids.len(), 20);
}

#[test]
fn every_placeholder_has_a_value() {
    let update = UpdateTodo { body: "b".to_string(), completed: false };
    let new_todo = CreateTodo { body: "a".to_string() };
    let statements = vec![
        Todo::list_statement(),
        Todo::read_statement(1),
        Todo::create_statement(&new_todo),
        Todo::update_statement(1, &update),
        Todo::delete_statement(1),
    ];
    let expected = vec![0, 1, 1, 3, 1];
    for (statement, count) in statements.iter().zip(expected) {
        assert_eq!(statement.sql.matches('$').count(), count);
        assert_eq!(statement.params.len(), count);
    }
}
