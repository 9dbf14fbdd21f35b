use crate::error::{ErrorView, STATUS_NOT_FOUND};
use crate::handlers::row_reply;
use crate::queries::{
    create_query, delete_query, lemma_statement_texts, list_query, read_query, update_query,
    MAX_ROWS,
};
use crate::repository::{found, inserted, lemma_found_among_few, listed, TodoView};
use crate::statement::StatementView;
use vstd::prelude::*;

verus! {

/// What can be asked of the table.
pub enum Operation {
    List,
    Read { id: int },
    Create { body: Seq<char> },
    Update { id: int, body: Seq<char>, completed: bool },
    Delete { id: int },
}

impl Operation {
    /// The statement by which the operation is asked for.
    pub open spec fn statement(self) -> StatementView {
        match self {
            Operation::List => list_query(),
            Operation::Read { id } => read_query(id),
            Operation::Create { body } => create_query(body),
            Operation::Update { id, body, completed } => update_query(id, body, completed),
            Operation::Delete { id } => delete_query(id),
        }
    }
}

/// The table of todos as the statements of this library expect it to behave:
/// a model of the database, not a part of the running program. It says what
/// each operation does to the rows and which rows it fetches, so that the
/// outcome of several requests in a row can be reasoned about.
pub struct Table {
    /// The rows, each under its id.
    pub rows: Map<int, TodoView>,
    /// The id that the next insert gives out.
    pub next_id: int,
    /// The database's clock when a row was last written, in microseconds
    /// since the Unix epoch.
    pub clock: int,
}

impl Table {
    /// Every row stands under its own id, which was given out before; no row
    /// was last written before it was inserted, nor after the latest writing.
    pub open spec fn wf(self) -> bool {
        &&& self.rows.dom().finite()
        &&& forall|id: int| #[trigger]
            self.rows.dom().contains(id) ==> {
                &&& self.rows[id].id == id
                &&& id < self.next_id
                &&& self.rows[id].created_at <= self.rows[id].updated_at <= self.clock
            }
    }

    /// Whether there is a row `id`.
    pub open spec fn has(self, id: int) -> bool {
        self.rows.dom().contains(id)
    }

    /// The row `id` alone, where there is one.
    pub open spec fn select(self, id: int) -> Seq<TodoView> {
        if self.has(id) {
            seq![self.rows[id]]
        } else {
            Seq::empty()
        }
    }

    /// Whether `rows` can be a listing: rows of the table, none twice, in any
    /// order; all of them where the table holds no more than [`MAX_ROWS`],
    /// and [`MAX_ROWS`] of them otherwise.
    pub open spec fn lists(self, rows: Seq<TodoView>) -> bool {
        &&& rows.len() == if self.rows.dom().len() <= MAX_ROWS {
            self.rows.dom().len()
        } else {
            MAX_ROWS as nat
        }
        &&& forall|i: int|
            0 <= i < rows.len() ==> self.has(#[trigger] rows[i].id) && self.rows[rows[i].id]
                == rows[i]
        &&& forall|i: int, j: int|
            0 <= i < j < rows.len() ==> #[trigger] rows[i].id != #[trigger] rows[j].id
    }

    /// The row that an insert of `body` makes when the clock has gone on by
    /// `elapsed`: open, under the next id, inserted and last written now.
    pub open spec fn fresh(self, body: Seq<char>, elapsed: nat) -> TodoView {
        TodoView {
            id: self.next_id,
            body,
            completed: false,
            created_at: self.clock + elapsed,
            updated_at: self.clock + elapsed,
        }
    }

    /// The row `id` after an update to `body` and `completed` when the clock
    /// has gone on by `elapsed`: id and time of insertion stay, the time of
    /// last writing is now.
    pub open spec fn changed(self, id: int, body: Seq<char>, completed: bool, elapsed: nat)
        -> TodoView {
        TodoView {
            id: self.rows[id].id,
            body,
            completed,
            created_at: self.rows[id].created_at,
            updated_at: self.clock + elapsed,
        }
    }

    /// The table after `operation`, for which the clock has gone on by
    /// `elapsed`. An insert adds its row and uses up an id; an update
    /// replaces its row, a delete removes it, and neither does anything where
    /// there is no such row; reading changes nothing.
    pub open spec fn apply(self, operation: Operation, elapsed: nat) -> Table {
        match operation {
            Operation::List => self,
            Operation::Read { id } => self,
            Operation::Create { body } => Table {
                rows: self.rows.insert(self.next_id, self.fresh(body, elapsed)),
                next_id: self.next_id + 1,
                clock: self.clock + elapsed,
            },
            Operation::Update { id, body, completed } => if self.has(id) {
                Table {
                    rows: self.rows.insert(id, self.changed(id, body, completed, elapsed)),
                    next_id: self.next_id,
                    clock: self.clock + elapsed,
                }
            } else {
                self
            },
            Operation::Delete { id } => Table {
                rows: self.rows.remove(id),
                next_id: self.next_id,
                clock: self.clock,
            },
        }
    }

    /// Whether `rows` can be what the statement of `operation` fetches: a
    /// listing; the row read; the row as inserted; the row as updated; the
    /// row that is deleted.
    pub open spec fn fetches(self, operation: Operation, elapsed: nat, rows: Seq<TodoView>)
        -> bool {
        match operation {
            Operation::List => self.lists(rows),
            Operation::Read { id } => rows == self.select(id),
            Operation::Create { body } => rows == seq![self.fresh(body, elapsed)],
            Operation::Update { id, body, completed } => rows == self.apply(
                operation,
                elapsed,
            ).select(id),
            Operation::Delete { id } => rows == self.select(id),
        }
    }

    /// The table after one insert for each of `bodies`, all at the same
    /// instant, in the order in which the database takes them.
    pub open spec fn insert_each(self, bodies: Seq<Seq<char>>) -> Table
        decreases bodies.len(),
    {
        if bodies.len() == 0 {
            self
        } else {
            self.insert_each(bodies.drop_last()).apply(
                Operation::Create { body: bodies.last() },
                0,
            )
        }
    }

    /// The id under which the insert number `i` of `bodies` puts its row.
    pub open spec fn id_given(self, bodies: Seq<Seq<char>>, i: int) -> int {
        self.insert_each(bodies.take(i)).next_id
    }
}

/// The length of the text by which an operation is asked for tells which of
/// the five it is.
proof fn lemma_statement_length(operation: Operation)
    ensures
        operation.statement().sql.len() == (match operation {
            Operation::List => 29nat,
            Operation::Read { .. } => 33nat,
            Operation::Create { .. } => 48nat,
            Operation::Update { .. } => 99nat,
            Operation::Delete { .. } => 43nat,
        }),
{
    lemma_statement_texts();
    reveal_strlit("select * from todos limit 10;");
    reveal_strlit("select * from todos where id = $1");
    reveal_strlit("insert into todos (body) values ($1) returning *");
    reveal_strlit(
        "update todos set body = $1, completed = $2, updated_at = now()::timestamp where id = $3 returning *",
    );
    reveal_strlit("delete from todos where id = $1 returning *");
}

/// A statement stands for one operation only: two operations that are asked
/// for by the same statement are the same.
pub proof fn lemma_statement_names_operation(a: Operation, b: Operation)
    requires
        a.statement() == b.statement(),
    ensures
        a == b,
{
    lemma_statement_length(a);
    lemma_statement_length(b);
    match (a, b) {
        (Operation::Read { id }, Operation::Read { id: other }) => {
            assert(read_query(id).params[0] == read_query(other).params[0]);
        },
        (Operation::Create { body }, Operation::Create { body: other }) => {
            assert(create_query(body).params[0] == create_query(other).params[0]);
        },
        (
            Operation::Update { id, body, completed },
            Operation::Update { id: other_id, body: other_body, completed: other_completed },
        ) => {
            let mine = update_query(id, body, completed);
            let theirs = update_query(other_id, other_body, other_completed);
            assert(mine.params[0] == theirs.params[0]);
            assert(mine.params[1] == theirs.params[1]);
            assert(mine.params[2] == theirs.params[2]);
        },
        (Operation::Delete { id }, Operation::Delete { id: other }) => {
            assert(delete_query(id).params[0] == delete_query(other).params[0]);
        },
        _ => {},
    }
}

/// Each operation leaves the table well formed: ids stay unique, and no row
/// is ever last written before it was inserted.
pub proof fn lemma_wf_is_kept(table: Table, operation: Operation, elapsed: nat)
    requires
        table.wf(),
    ensures
        table.apply(operation, elapsed).wf(),
{
}

/// A todo that was created is read back under the id it was given: with the
/// body it was created with, open, and last written when it was inserted.
pub proof fn lemma_created_is_read_back(
    table: Table,
    body: Seq<char>,
    elapsed: nat,
    created: Seq<TodoView>,
    later: nat,
    read: Seq<TodoView>,
)
    requires
        table.wf(),
        table.fetches(Operation::Create { body }, elapsed, created),
        table.apply(Operation::Create { body }, elapsed).fetches(
            Operation::Read { id: created[0].id },
            later,
            read,
        ),
    ensures
        inserted(Ok(created)) == Ok::<TodoView, ErrorView>(created[0]),
        found(Ok(read), created[0].id) == Ok::<TodoView, ErrorView>(created[0]),
        created[0].body == body,
        !created[0].completed,
        created[0].created_at == created[0].updated_at,
        !table.has(created[0].id),
{
    lemma_found_among_few(created[0], created[0].id);
}

/// An update changes one row and nothing else: the row keeps its id and its
/// time of insertion, takes the body and the completion given, and is last
/// written now, which is not before it was last written. Every other row
/// stays as it was.
pub proof fn lemma_update_changes_one_row(
    table: Table,
    id: int,
    body: Seq<char>,
    completed: bool,
    elapsed: nat,
    updated: Seq<TodoView>,
)
    requires
        table.wf(),
        table.has(id),
        table.fetches(Operation::Update { id, body, completed }, elapsed, updated),
    ensures
        ({
            let after = table.apply(Operation::Update { id, body, completed }, elapsed);
            &&& found(Ok(updated), id) == Ok::<TodoView, ErrorView>(after.rows[id])
            &&& after.rows[id].id == id
            &&& after.rows[id].created_at == table.rows[id].created_at
            &&& after.rows[id].body == body
            &&& after.rows[id].completed == completed
            &&& after.rows[id].updated_at == table.clock + elapsed
            &&& after.rows[id].updated_at >= table.rows[id].updated_at
            &&& after.rows.dom() == table.rows.dom()
            &&& forall|other: int|
                other != id && #[trigger] table.has(other) ==> after.rows[other]
                    == table.rows[other]
        }),
{
    let after = table.apply(Operation::Update { id, body, completed }, elapsed);
    assert(after.rows.dom() =~= table.rows.dom());
    lemma_found_among_few(after.rows[id], id);
}

/// Two updates of one todo to the same body and completion return rows that
/// agree in both, and the second was not last written before the first.
pub proof fn lemma_update_twice(
    table: Table,
    id: int,
    body: Seq<char>,
    completed: bool,
    first: nat,
    second: nat,
    one: Seq<TodoView>,
    two: Seq<TodoView>,
)
    requires
        table.wf(),
        table.has(id),
        table.fetches(Operation::Update { id, body, completed }, first, one),
        table.apply(Operation::Update { id, body, completed }, first).fetches(
            Operation::Update { id, body, completed },
            second,
            two,
        ),
    ensures
        found(Ok(one), id) == Ok::<TodoView, ErrorView>(one[0]),
        found(Ok(two), id) == Ok::<TodoView, ErrorView>(two[0]),
        one[0].id == id && two[0].id == id,
        one[0].body == body && two[0].body == body,
        one[0].completed == completed && two[0].completed == completed,
        one[0].created_at == two[0].created_at,
        one[0].updated_at <= two[0].updated_at,
{
    lemma_found_among_few(one[0], id);
    lemma_found_among_few(two[0], id);
}

/// Where there is no todo `id`, reading, updating and deleting it are each
/// answered with 404, and none of them changes the table.
pub proof fn lemma_missing_is_not_found(
    table: Table,
    operation: Operation,
    id: int,
    elapsed: nat,
    fetched: Seq<TodoView>,
)
    requires
        !table.has(id),
        match operation {
            Operation::Read { id: asked } => asked == id,
            Operation::Update { id: asked, body, completed } => asked == id,
            Operation::Delete { id: asked } => asked == id,
            _ => false,
        },
        table.fetches(operation, elapsed, fetched),
    ensures
        found(Ok(fetched), id) == Err::<TodoView, ErrorView>(ErrorView::NotFound),
        row_reply(found(Ok(fetched), id)).status == STATUS_NOT_FOUND,
        table.apply(operation, elapsed) == table,
{
    lemma_found_among_few(arbitrary(), id);
    if let Operation::Delete { id } = operation {
        assert(table.rows.remove(id) =~= table.rows);
    }
}

/// A delete removes one row and nothing else, and fetches the row as it was.
pub proof fn lemma_delete_removes_one_row(
    table: Table,
    id: int,
    elapsed: nat,
    deleted: Seq<TodoView>,
)
    requires
        table.wf(),
        table.has(id),
        table.fetches(Operation::Delete { id }, elapsed, deleted),
    ensures
        ({
            let after = table.apply(Operation::Delete { id }, elapsed);
            &&& found(Ok(deleted), id) == Ok::<TodoView, ErrorView>(table.rows[id])
            &&& !after.has(id)
            &&& forall|other: int|
                other != id && #[trigger] table.has(other) ==> after.has(other)
                    && after.rows[other] == table.rows[other]
        }),
{
    lemma_found_among_few(table.rows[id], id);
}

/// A todo that was deleted is not found again: reading it is answered with
/// 404, whether or not it was there before.
pub proof fn lemma_deleted_is_not_found(
    table: Table,
    id: int,
    elapsed: nat,
    later: nat,
    read: Seq<TodoView>,
)
    requires
        table.apply(Operation::Delete { id }, elapsed).fetches(
            Operation::Read { id },
            later,
            read,
        ),
    ensures
        found(Ok(read), id) == Err::<TodoView, ErrorView>(ErrorView::NotFound),
        row_reply(found(Ok(read), id)).status == STATUS_NOT_FOUND,
{
    lemma_found_among_few(arbitrary(), id);
}

/// A listing never returns more than [`MAX_ROWS`] todos, whatever was
/// fetched. Where what was fetched is a listing of the table, all of it is
/// returned: [`MAX_ROWS`] todos where the table holds as many or more, and
/// every todo of the table otherwise.
pub proof fn lemma_listing_is_capped(table: Table, elapsed: nat, fetched: Seq<TodoView>)
    ensures
        listed(Ok(fetched)) matches Ok(rows) && rows.len() <= MAX_ROWS,
        table.fetches(Operation::List, elapsed, fetched) ==> {
            &&& listed(Ok(fetched)) == Ok::<Seq<TodoView>, ErrorView>(fetched)
            &&& table.rows.dom().len() >= MAX_ROWS ==> fetched.len() == MAX_ROWS
            &&& table.rows.dom().len() <= MAX_ROWS ==> fetched.len() == table.rows.dom().len()
        },
{
}

/// What a run of inserts leaves: the ids from the next one on, one for each
/// body in turn, and every earlier row as it was.
proof fn lemma_insert_each(table: Table, bodies: Seq<Seq<char>>)
    requires
        table.wf(),
    ensures
        table.insert_each(bodies).wf(),
        table.insert_each(bodies).next_id == table.next_id + bodies.len(),
        table.insert_each(bodies).rows.dom().len() == table.rows.dom().len() + bodies.len(),
        forall|id: int|
            table.next_id <= id < table.next_id + bodies.len() ==> #[trigger] table.insert_each(
                bodies,
            ).has(id),
        forall|id: int|
            table.next_id <= id < table.next_id + bodies.len() && #[trigger] table.insert_each(
                bodies,
            ).has(id) ==> table.insert_each(bodies).rows[id].body == bodies[id - table.next_id],
        forall|id: int| #[trigger] table.has(id) ==> table.insert_each(bodies).has(id),
        forall|id: int| #[trigger]
            table.has(id) ==> table.insert_each(bodies).rows[id] == table.rows[id],
    decreases bodies.len(),
{
    if bodies.len() > 0 {
        let before = table.insert_each(bodies.drop_last());
        lemma_insert_each(table, bodies.drop_last());
        assert(!before.has(before.next_id));
        assert forall|id: int|
            table.next_id <= id < table.next_id + bodies.len() implies #[trigger] table.insert_each(
            bodies,
        ).has(id) by {
            if id < before.next_id {
                assert(before.has(id));
            }
        }
        assert forall|id: int|
            table.next_id <= id < table.next_id + bodies.len() && #[trigger] table.insert_each(
                bodies,
            ).has(id) implies table.insert_each(bodies).rows[id].body == bodies[id
            - table.next_id] by {
            if id < before.next_id {
                assert(before.has(id));
            }
        }
    }
}

/// However many todos are created at once, each gets an id of its own that no
/// row had before, and afterwards each is in the table with its body, beside
/// every row that was there before: no id is given twice and no write is lost.
pub proof fn lemma_creates_are_all_kept(table: Table, bodies: Seq<Seq<char>>)
    requires
        table.wf(),
    ensures
        forall|i: int, j: int|
            0 <= i < j < bodies.len() ==> #[trigger] table.id_given(bodies, i)
                != #[trigger] table.id_given(bodies, j),
        forall|i: int|
            0 <= i < bodies.len() ==> {
                &&& !table.has(#[trigger] table.id_given(bodies, i))
                &&& table.insert_each(bodies).has(table.id_given(bodies, i))
                &&& table.insert_each(bodies).rows[table.id_given(bodies, i)].body == bodies[i]
            },
        forall|id: int| #[trigger]
            table.has(id) ==> {
                &&& table.insert_each(bodies).has(id)
                &&& table.insert_each(bodies).rows[id] == table.rows[id]
            },
        table.insert_each(bodies).rows.dom().len() == table.rows.dom().len() + bodies.len(),
{
    lemma_insert_each(table, bodies);
    assert forall|i: int| 0 <= i < bodies.len() implies #[trigger] table.id_given(bodies, i)
        == table.next_id + i by {
        lemma_insert_each(table, bodies.take(i));
    }
    assert forall|i: int| 0 <= i < bodies.len() implies {
        &&& !table.has(#[trigger] table.id_given(bodies, i))
        &&& table.insert_each(bodies).has(table.id_given(bodies, i))
        &&& table.insert_each(bodies).rows[table.id_given(bodies, i)].body == bodies[i]
    } by {
        assert(table.insert_each(bodies).has(table.next_id + i));
    }
}

} // verus!
