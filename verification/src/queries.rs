use crate::decimal::decimal;
use crate::statement::{placeholders, signs_before, ParamView, StatementView};
use vstd::prelude::*;

verus! {

/// The most rows that a listing returns.
pub const MAX_ROWS: u32 = 10;

/// The table that holds the todos.
pub const TODO_TABLE_NAME: &'static str = "todos";

/// Text of the statement that selects at most [`MAX_ROWS`] rows, in no stated order.
pub open spec fn list_sql() -> Seq<char> {
    "select * from "@ + TODO_TABLE_NAME@ + " limit "@ + decimal(MAX_ROWS as nat) + ";"@
}

/// Text of the statement that selects the row with a given id.
pub open spec fn read_sql() -> Seq<char> {
    "select * from "@ + TODO_TABLE_NAME@ + " where id = $1"@
}

/// Text of the statement that inserts a row with a given body and returns it.
/// The database fills in everything else.
pub open spec fn create_sql() -> Seq<char> {
    "insert into "@ + TODO_TABLE_NAME@ + " (body) values ($1) returning *"@
}

/// Text of the statement that overwrites body and completion of the row with a
/// given id, sets its time of last writing by the database's clock and returns it.
pub open spec fn update_sql() -> Seq<char> {
    "update "@ + TODO_TABLE_NAME@
        + " set body = $1, completed = $2, updated_at = now()::timestamp where id = $3 returning *"@
}

/// Text of the statement that removes the row with a given id and returns it.
pub open spec fn delete_sql() -> Seq<char> {
    "delete from "@ + TODO_TABLE_NAME@ + " where id = $1 returning *"@
}

/// The statement that lists todos.
pub open spec fn list_query() -> StatementView {
    StatementView { sql: list_sql(), params: seq![] }
}

/// The statement that reads the todo `id`.
pub open spec fn read_query(id: int) -> StatementView {
    StatementView { sql: read_sql(), params: seq![ParamView::Int(id)] }
}

/// The statement that creates a todo with `body`.
pub open spec fn create_query(body: Seq<char>) -> StatementView {
    StatementView { sql: create_sql(), params: seq![ParamView::Text(body)] }
}

/// The statement that changes the todo `id` to `body` and `completed`.
pub open spec fn update_query(id: int, body: Seq<char>, completed: bool) -> StatementView {
    StatementView {
        sql: update_sql(),
        params: seq![ParamView::Text(body), ParamView::Bool(completed), ParamView::Int(id)],
    }
}

/// The statement that deletes the todo `id`.
pub open spec fn delete_query(id: int) -> StatementView {
    StatementView { sql: delete_sql(), params: seq![ParamView::Int(id)] }
}

/// The five statements, letter for letter.
pub proof fn lemma_statement_texts()
    ensures
        list_sql() == "select * from todos limit 10;"@,
        read_sql() == "select * from todos where id = $1"@,
        create_sql() == "insert into todos (body) values ($1) returning *"@,
        update_sql()
            == "update todos set body = $1, completed = $2, updated_at = now()::timestamp where id = $3 returning *"@,
        delete_sql() == "delete from todos where id = $1 returning *"@,
{
    reveal_strlit("todos");
    assert(decimal(10) =~= seq!['1', '0']) by {
        reveal_with_fuel(decimal, 2);
    }
    assert(list_sql() =~= "select * from todos limit 10;"@) by {
        reveal_strlit("select * from ");
        reveal_strlit(" limit ");
        reveal_strlit(";");
        reveal_strlit("select * from todos limit 10;");
    }
    assert(read_sql() =~= "select * from todos where id = $1"@) by {
        reveal_strlit("select * from ");
        reveal_strlit(" where id = $1");
        reveal_strlit("select * from todos where id = $1");
    }
    assert(create_sql() =~= "insert into todos (body) values ($1) returning *"@) by {
        reveal_strlit("insert into ");
        reveal_strlit(" (body) values ($1) returning *");
        reveal_strlit("insert into todos (body) values ($1) returning *");
    }
    assert(update_sql()
        =~= "update todos set body = $1, completed = $2, updated_at = now()::timestamp where id = $3 returning *"@)
        by {
        reveal_strlit("update ");
        reveal_strlit(
            " set body = $1, completed = $2, updated_at = now()::timestamp where id = $3 returning *",
        );
        reveal_strlit(
            "update todos set body = $1, completed = $2, updated_at = now()::timestamp where id = $3 returning *",
        );
    }
    assert(delete_sql() =~= "delete from todos where id = $1 returning *"@) by {
        reveal_strlit("delete from ");
        reveal_strlit(" where id = $1 returning *");
        reveal_strlit("delete from todos where id = $1 returning *");
    }
}

/// The text of the list statement holds no placeholder.
proof fn lemma_list_placeholders()
    ensures
        placeholders(list_sql()) == 0,
{
    lemma_statement_texts();
    let text = list_sql();
    reveal_strlit(
        "select * from todos limit 10;",
    );
    reveal_with_fuel(signs_before, 9);
    assert(signs_before(text, 8) == 0);
    assert(signs_before(text, 16) == 0);
    assert(signs_before(text, 24) == 0);
    assert(signs_before(text, 29) == 0);
}

/// The text of the read statement holds one placeholder.
proof fn lemma_read_placeholders()
    ensures
        placeholders(read_sql()) == 1,
{
    lemma_statement_texts();
    let text = read_sql();
    reveal_strlit(
        "select * from todos where id = $1",
    );
    reveal_with_fuel(signs_before, 9);
    assert(signs_before(text, 8) == 0);
    assert(signs_before(text, 16) == 0);
    assert(signs_before(text, 24) == 0);
    assert(signs_before(text, 32) == 1);
    assert(signs_before(text, 33) == 1);
}

/// The text of the create statement holds one placeholder.
proof fn lemma_create_placeholders()
    ensures
        placeholders(create_sql()) == 1,
{
    lemma_statement_texts();
    let text = create_sql();
    reveal_strlit(
        "insert into todos (body) values ($1) returning *",
    );
    reveal_with_fuel(signs_before, 9);
    assert(signs_before(text, 8) == 0);
    assert(signs_before(text, 16) == 0);
    assert(signs_before(text, 24) == 0);
    assert(signs_before(text, 32) == 0);
    assert(signs_before(text, 40) == 1);
    assert(signs_before(text, 48) == 1);
}

/// The text of the update statement holds three placeholders.
proof fn lemma_update_placeholders()
    ensures
        placeholders(update_sql()) == 3,
{
    lemma_statement_texts();
    let text = update_sql();
    reveal_strlit(
        "update todos set body = $1, completed = $2, updated_at = now()::timestamp where id = $3 returning *",
    );
    reveal_with_fuel(signs_before, 9);
    assert(signs_before(text, 8) == 0);
    assert(signs_before(text, 16) == 0);
    assert(signs_before(text, 24) == 0);
    assert(signs_before(text, 32) == 1);
    assert(signs_before(text, 40) == 1);
    assert(signs_before(text, 48) == 2);
    assert(signs_before(text, 56) == 2);
    assert(signs_before(text, 64) == 2);
    assert(signs_before(text, 72) == 2);
    assert(signs_before(text, 80) == 2);
    assert(signs_before(text, 88) == 3);
    assert(signs_before(text, 96) == 3);
    assert(signs_before(text, 99) == 3);
}

/// The text of the delete statement holds one placeholder.
proof fn lemma_delete_placeholders()
    ensures
        placeholders(delete_sql()) == 1,
{
    lemma_statement_texts();
    let text = delete_sql();
    reveal_strlit(
        "delete from todos where id = $1 returning *",
    );
    reveal_with_fuel(signs_before, 9);
    assert(signs_before(text, 8) == 0);
    assert(signs_before(text, 16) == 0);
    assert(signs_before(text, 24) == 0);
    assert(signs_before(text, 32) == 1);
    assert(signs_before(text, 40) == 1);
    assert(signs_before(text, 43) == 1);
}

/// Each of the five statements binds one value for each of its placeholders.
pub proof fn lemma_statements_are_wf(id: int, body: Seq<char>, completed: bool)
    ensures
        list_query().wf(),
        read_query(id).wf(),
        create_query(body).wf(),
        update_query(id, body, completed).wf(),
        delete_query(id).wf(),
{
    lemma_list_placeholders();
    lemma_read_placeholders();
    lemma_create_placeholders();
    lemma_update_placeholders();
    lemma_delete_placeholders();
}

} // verus!
