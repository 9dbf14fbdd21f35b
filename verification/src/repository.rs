use crate::decimal::decimal_text;
use crate::error::{Error, ErrorView};
use crate::queries::{
    create_query, delete_query, lemma_statements_are_wf, list_query, read_query, update_query,
    MAX_ROWS, TODO_TABLE_NAME,
};
use crate::statement::{Param, Statement};
use vstd::prelude::*;
use vstd::string::*;

verus! {

/// What is reported when an insert does not hand back the one row it made.
pub const NO_ROW_INSERTED: &'static str = "the insert did not return exactly one row";

/// One todo, as the table holds it.
#[derive(Clone, Debug, PartialEq, Eq)]
pub struct Todo {
    /// Given by the database when the row is inserted; never changes.
    pub id: i64,
    pub body: String,
    pub completed: bool,
    /// When the row was inserted, in microseconds since the Unix epoch.
    pub created_at: i64,
    /// When the row was last written, in microseconds since the Unix epoch.
    pub updated_at: i64,
}

/// A [`Todo`] as a mathematical value.
pub struct TodoView {
    pub id: int,
    pub body: Seq<char>,
    pub completed: bool,
    pub created_at: int,
    pub updated_at: int,
}

impl View for Todo {
    type V = TodoView;

    open spec fn view(&self) -> TodoView {
        TodoView {
            id: self.id as int,
            body: self.body@,
            completed: self.completed,
            created_at: self.created_at as int,
            updated_at: self.updated_at as int,
        }
    }
}

impl DeepView for Todo {
    type V = TodoView;

    open spec fn deep_view(&self) -> TodoView {
        self@
    }
}

/// What a client sends to have a todo created.
#[derive(Clone, Debug, PartialEq, Eq)]
pub struct CreateTodo {
    pub body: String,
}

impl CreateTodo {
    /// The body that the new todo is to have.
    pub fn body(&self) -> (body: &str)
        ensures
            body@ == self.body@,
    {
        self.body.as_str()
    }
}

/// What a client sends to have a todo changed.
#[derive(Clone, Debug, PartialEq, Eq)]
pub struct UpdateTodo {
    pub body: String,
    pub completed: bool,
}

impl UpdateTodo {
    /// The body that the todo is to have.
    pub fn body(&self) -> (body: &str)
        ensures
            body@ == self.body@,
    {
        self.body.as_str()
    }

    /// Whether the todo is to be completed.
    pub fn completed(&self) -> (completed: bool)
        ensures
            completed == self.completed,
    {
        self.completed
    }
}

/// What came back when a statement was run: the rows in the order the database
/// gave them, or the database's words on why it failed.
pub type Fetched = Result<Vec<Todo>, String>;

/// [`Fetched`] as a mathematical value.
pub type FetchedView = Result<Seq<TodoView>, Seq<char>>;

/// A result with both sides as mathematical values.
pub open spec fn deep<T: DeepView, E: DeepView>(result: Result<T, E>) -> Result<T::V, E::V> {
    match result {
        Ok(value) => Ok(value.deep_view()),
        Err(error) => Err(error.deep_view()),
    }
}

/// The first [`MAX_ROWS`] of `rows`, or all of them where there are fewer.
pub open spec fn capped(rows: Seq<TodoView>) -> Seq<TodoView> {
    if rows.len() <= MAX_ROWS {
        rows
    } else {
        rows.take(MAX_ROWS as int)
    }
}

/// How a listing ends: with the rows that came back, capped, or with the
/// database's failure.
pub open spec fn listed(fetched: FetchedView) -> Result<Seq<TodoView>, ErrorView> {
    match fetched {
        Ok(rows) => Ok(capped(rows)),
        Err(text) => Err(ErrorView::Query(text)),
    }
}

/// The rows among `rows` that stand under `id`, in their order.
pub open spec fn matching(rows: Seq<TodoView>, id: int) -> Seq<TodoView> {
    rows.filter(|row: TodoView| row.id == id)
}

/// How a statement on the row `id` ends: with the row where exactly one of
/// those that came back stands under `id`, with `NotFound` where none or
/// several do, or with the database's failure.
pub open spec fn found(fetched: FetchedView, id: int) -> Result<TodoView, ErrorView> {
    match fetched {
        Ok(rows) => if matching(rows, id).len() == 1 {
            Ok(matching(rows, id)[0])
        } else {
            Err(ErrorView::NotFound)
        },
        Err(text) => Err(ErrorView::Query(text)),
    }
}

/// How an insert ends: with the new row where exactly one came back; anything
/// else is a failure of the statement, never `NotFound`.
pub open spec fn inserted(fetched: FetchedView) -> Result<TodoView, ErrorView> {
    match fetched {
        Ok(rows) => if rows.len() == 1 {
            Ok(rows[0])
        } else {
            Err(ErrorView::Query(NO_ROW_INSERTED@))
        },
        Err(text) => Err(ErrorView::Query(text)),
    }
}

/// The row of `rows` where it is the only one.
fn only(rows: Vec<Todo>) -> (row: Option<Todo>)
    ensures
        rows.len() == 1 ==> row == Some(rows@[0]),
        rows.len() != 1 ==> row is None,
{
    let mut rows = rows;
    if rows.len() == 1 {
        rows.pop()
    } else {
        None
    }
}

/// A row that is found stands under the id that was asked for, and is one of
/// the rows that came back.
pub proof fn lemma_found_has_id(fetched: FetchedView, id: int)
    ensures
        found(fetched, id) matches Ok(row) ==> row.id == id,
        found(fetched, id) matches Ok(row) ==> (fetched matches Ok(rows) && rows.contains(row)),
{
    if let Ok(rows) = fetched {
        if matching(rows, id).len() == 1 {
            let hit = matching(rows, id)[0];
            rows.filter_lemma(|row: TodoView| row.id == id);
            assert(matching(rows, id).contains(hit));
            rows.lemma_filter_contains_rev(|row: TodoView| row.id == id, hit);
        }
    }
}

/// Among no rows nothing is found, and in a single row that row, where it
/// stands under the id that was asked for.
pub proof fn lemma_found_among_few(row: TodoView, id: int)
    ensures
        found(Ok(Seq::empty()), id) == Err::<TodoView, ErrorView>(ErrorView::NotFound),
        found(Ok(seq![row]), id) == if row.id == id {
            Ok::<TodoView, ErrorView>(row)
        } else {
            Err::<TodoView, ErrorView>(ErrorView::NotFound)
        },
{
    reveal_with_fuel(Seq::filter, 2);
    assert(seq![row].drop_last() =~= Seq::<TodoView>::empty());
    assert(matching(Seq::empty(), id) =~= Seq::<TodoView>::empty());
    assert(matching(seq![row], id) =~= if row.id == id {
        seq![row]
    } else {
        Seq::<TodoView>::empty()
    });
}

/// What one more row adds to those that stand under `id`.
proof fn lemma_matching_next(rows: Seq<TodoView>, id: int, i: int)
    requires
        0 <= i < rows.len(),
    ensures
        matching(rows.take(i + 1), id) == if rows[i].id == id {
            matching(rows.take(i), id).push(rows[i])
        } else {
            matching(rows.take(i), id)
        },
{
    reveal(Seq::filter);
    assert(rows.take(i + 1).drop_last() =~= rows.take(i));
}

/// Ends a statement on the row `id` as [`found`] says.
fn find(fetched: Fetched, id: i64) -> (res: Result<Todo, Error>)
    ensures
        deep(res) == found(deep(fetched), id as int),
{
    match fetched {
        Ok(rows) => {
            let mut rows = rows;
            let ghost all = rows.deep_view();
            let mut hits: usize = 0;
            let mut at: usize = 0;
            let mut i: usize = 0;
            proof {
                reveal(Seq::filter);
                assert(all.take(0) =~= Seq::empty());
            }
            while i < rows.len()
                invariant
                    i <= rows.len(),
                    all == rows.deep_view(),
                    hits == matching(all.take(i as int), id as int).len(),
                    hits <= i,
                    hits > 0 ==> at < i && matching(all.take(i as int), id as int)[0] == all[at as int],
                decreases rows.len() - i,
            {
                proof {
                    lemma_matching_next(all, id as int, i as int);
                }
                if rows[i].id == id {
                    if hits == 0 {
                        at = i;
                    }
                    hits = hits + 1;
                }
                i = i + 1;
            }
            assert(all.take(i as int) =~= all);
            if hits == 1 {
                Ok(rows.swap_remove(at))
            } else {
                Err(Error::NotFound)
            }
        },
        Err(text) => Err(Error::Query(text)),
    }
}

impl Todo {
    /// The name of the table, as the statements write it.
    fn table_name() -> (name: String)
        ensures
            name@ == TODO_TABLE_NAME@,
    {
        String::from_str(TODO_TABLE_NAME)
    }

    /// The statement by which todos are listed.
    pub fn list_statement() -> (statement: Statement)
        ensures
            statement@ == list_query(),
            statement@.wf(),
    {
        proof {
            lemma_statements_are_wf(0, Seq::empty(), false);
        }
        let mut sql = String::from_str("select * from ");
        sql.append(Self::table_name().as_str());
        sql.append(" limit ");
        sql.append(decimal_text(MAX_ROWS).as_str());
        sql.append(";");
        let params: Vec<Param> = Vec::new();
        assert(params.deep_view() =~= list_query().params);
        Statement { sql, params }
    }

    /// What a listing returns, given what its statement fetched: the rows in the
    /// order they came, never more than [`MAX_ROWS`] of them.
    pub fn list(fetched: Fetched) -> (res: Result<Vec<Todo>, Error>)
        ensures
            deep(res) == listed(deep(fetched)),
            res is Ok <==> fetched is Ok,
            res matches Ok(rows) ==> rows.len() <= MAX_ROWS,
            res matches Err(error) ==> error is Query,
    {
        match fetched {
            Ok(rows) => {
                let mut rows = rows;
                let ghost all = rows.deep_view();
                rows.truncate(MAX_ROWS as usize);
                assert(rows.deep_view() =~= capped(all));
                Ok(rows)
            },
            Err(text) => Err(Error::Query(text)),
        }
    }

    /// The statement by which the todo `id` is read.
    pub fn read_statement(id: i64) -> (statement: Statement)
        ensures
            statement@ == read_query(id as int),
            statement@.wf(),
    {
        proof {
            lemma_statements_are_wf(id as int, Seq::empty(), false);
        }
        let mut sql = String::from_str("select * from ");
        sql.append(Self::table_name().as_str());
        sql.append(" where id = $1");
        let mut params: Vec<Param> = Vec::new();
        params.push(Param::Int(id));
        assert(params.deep_view() =~= read_query(id as int).params);
        Statement { sql, params }
    }

    /// What reading a todo returns, given what its statement fetched: the todo,
    /// or `NotFound` where the statement did not find exactly one row.
    pub fn read(fetched: Fetched, id: i64) -> (res: Result<Todo, Error>)
        ensures
            deep(res) == found(deep(fetched), id as int),
            res is Ok <==> (fetched matches Ok(rows) && matching(rows.deep_view(), id as int).len()
                == 1),
            res matches Ok(row) ==> row.id == id,
            res matches Err(Error::NotFound) <==> (fetched matches Ok(rows) && matching(
                rows.deep_view(),
                id as int,
            ).len() != 1),
            res matches Err(Error::Query(_)) <==> fetched is Err,
    {
        proof {
            lemma_found_has_id(deep(fetched), id as int);
        }
        find(fetched, id)
    }

    /// The statement by which a todo with the body of `new_todo` is created.
    pub fn create_statement(new_todo: &CreateTodo) -> (statement: Statement)
        ensures
            statement@ == create_query(new_todo.body@),
            statement@.wf(),
    {
        proof {
            lemma_statements_are_wf(0, new_todo.body@, false);
        }
        let mut sql = String::from_str("insert into ");
        sql.append(Self::table_name().as_str());
        sql.append(" (body) values ($1) returning *");
        let mut params: Vec<Param> = Vec::new();
        params.push(Param::Text(String::from_str(new_todo.body())));
        assert(params.deep_view() =~= create_query(new_todo.body@).params);
        Statement { sql, params }
    }

    /// What creating a todo returns, given what its statement fetched: the row
    /// that the database made.
    pub fn create(fetched: Fetched) -> (res: Result<Todo, Error>)
        ensures
            deep(res) == inserted(deep(fetched)),
            res is Ok <==> (fetched matches Ok(rows) && rows.len() == 1),
            res matches Err(error) ==> error is Query,
    {
        match fetched {
            Ok(rows) => match only(rows) {
                Some(row) => Ok(row),
                None => Err(Error::Query(String::from_str(NO_ROW_INSERTED))),
            },
            Err(text) => Err(Error::Query(text)),
        }
    }

    /// The statement by which the todo `id` is changed to what `update_todo` holds.
    pub fn update_statement(id: i64, update_todo: &UpdateTodo) -> (statement: Statement)
        ensures
            statement@ == update_query(id as int, update_todo.body@, update_todo.completed),
            statement@.wf(),
    {
        proof {
            lemma_statements_are_wf(id as int, update_todo.body@, update_todo.completed);
        }
        let mut sql = String::from_str("update ");
        sql.append(Self::table_name().as_str());
        sql.append(
            " set body = $1, completed = $2, updated_at = now()::timestamp where id = $3 returning *",
        );
        let mut params: Vec<Param> = Vec::new();
        params.push(Param::Text(String::from_str(update_todo.body())));
        params.push(Param::Bool(update_todo.completed()));
        params.push(Param::Int(id));
        assert(params.deep_view() =~= update_query(
            id as int,
            update_todo.body@,
            update_todo.completed,
        ).params);
        Statement { sql, params }
    }

    /// What changing a todo returns, given what its statement fetched: the row
    /// as it is after the change, or `NotFound` where there is no such row.
    pub fn update(fetched: Fetched, id: i64) -> (res: Result<Todo, Error>)
        ensures
            deep(res) == found(deep(fetched), id as int),
            res is Ok <==> (fetched matches Ok(rows) && matching(rows.deep_view(), id as int).len()
                == 1),
            res matches Ok(row) ==> row.id == id,
            res matches Err(Error::NotFound) <==> (fetched matches Ok(rows) && matching(
                rows.deep_view(),
                id as int,
            ).len() != 1),
            res matches Err(Error::Query(_)) <==> fetched is Err,
    {
        proof {
            lemma_found_has_id(deep(fetched), id as int);
        }
        find(fetched, id)
    }

    /// The statement by which the todo `id` is deleted.
    pub fn delete_statement(id: i64) -> (statement: Statement)
        ensures
            statement@ == delete_query(id as int),
            statement@.wf(),
    {
        proof {
            lemma_statements_are_wf(id as int, Seq::empty(), false);
        }
        let mut sql = String::from_str("delete from ");
        sql.append(Self::table_name().as_str());
        sql.append(" where id = $1 returning *");
        let mut params: Vec<Param> = Vec::new();
        params.push(Param::Int(id));
        assert(params.deep_view() =~= delete_query(id as int).params);
        Statement { sql, params }
    }

    /// What deleting a todo returns, given what its statement fetched: the row
    /// that was removed, or `NotFound` where there was no such row.
    pub fn delete(fetched: Fetched, id: i64) -> (res: Result<Todo, Error>)
        ensures
            deep(res) == found(deep(fetched), id as int),
            res is Ok <==> (fetched matches Ok(rows) && matching(rows.deep_view(), id as int).len()
                == 1),
            res matches Ok(row) ==> row.id == id,
            res matches Err(Error::NotFound) <==> (fetched matches Ok(rows) && matching(
                rows.deep_view(),
                id as int,
            ).len() != 1),
            res matches Err(Error::Query(_)) <==> fetched is Err,
    {
        proof {
            lemma_found_has_id(deep(fetched), id as int);
        }
        find(fetched, id)
    }
}

} // verus!
