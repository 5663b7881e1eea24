//! The items table as the repository expects it to behave: what each of the
//! four statements does to the rows, and an in-memory table that does just
//! that. The table stands in for the store wherever no database is at
//! hand; the contracts of the handlers and the laws of the repository are
//! stated over its rows.
//!
//! Ids come from a counter that starts at 1 and never goes back, so an id
//! is not given twice, even after its row is gone. When the counter has
//! passed the largest 32-bit integer, creating fails and changes nothing.

use vstd::prelude::*;
use crate::handler::{respond, response_to, Step, StepView, StoreReply, StoreReplyView};
use crate::item::{copy_items, rows_of, Item, Row};
use crate::response::{Response, ResponseView};
use crate::statement::{Statement, StatementView};

verus! {

/// Whether some row has this id.
pub open spec fn has_id(rows: Seq<Row>, id: int) -> bool {
    exists|i: int| 0 <= i < rows.len() && (#[trigger] rows[i]).id == id
}

/// Whether no two rows share an id.
pub open spec fn distinct_ids(rows: Seq<Row>) -> bool {
    forall|i: int, j: int|
        0 <= i < j < rows.len() ==> (#[trigger] rows[i]).id != (#[trigger] rows[j]).id
}

/// How many rows have this id.
pub open spec fn count_id(rows: Seq<Row>, id: int) -> nat
    decreases rows.len(),
{
    if rows.len() == 0 {
        0
    } else if rows.last().id == id {
        count_id(rows.drop_last(), id) + 1
    } else {
        count_id(rows.drop_last(), id)
    }
}

/// The rows after an update: every row with this id holds the new name and
/// description, every other row is as it was, and all keep their places.
pub open spec fn updated(rows: Seq<Row>, id: int, name: Seq<char>, description: Seq<char>) -> Seq<
    Row,
> {
    Seq::new(
        rows.len(),
        |i: int|
            if rows[i].id == id {
                Row { id, name, description }
            } else {
                rows[i]
            },
    )
}

/// The rows after a delete: those with another id, in their old order.
pub open spec fn deleted(rows: Seq<Row>, id: int) -> Seq<Row>
    decreases rows.len(),
{
    if rows.len() == 0 {
        rows
    } else if rows.last().id == id {
        deleted(rows.drop_last(), id)
    } else {
        deleted(rows.drop_last(), id).push(rows.last())
    }
}

/// The message of a create that found the ids used up.
pub open spec fn ids_exhausted_text() -> Seq<char> {
    "reached maximum value of sequence \"items_id_seq\""@
}

/// The table as contracts see it: its rows and the id that the next
/// created row gets.
pub ghost struct TableView {
    pub rows: Seq<Row>,
    pub next_id: int,
}

impl TableView {
    /// What holds of every table: ids are positive, below the counter, and
    /// no two rows share one.
    pub open spec fn valid(self) -> bool {
        &&& 1 <= self.next_id <= i32::MAX + 1
        &&& distinct_ids(self.rows)
        &&& forall|i: int| 0 <= i < self.rows.len() ==> 1 <= (#[trigger] self.rows[i]).id < self.next_id
    }

    /// Whether an id is left for one more row.
    pub open spec fn can_create(self) -> bool {
        self.next_id <= i32::MAX
    }

    /// The table after a create: one more row at the end, with the next id,
    /// where an id is left; the same table where none is.
    pub open spec fn create(self, name: Seq<char>, description: Seq<char>) -> TableView {
        if self.can_create() {
            TableView {
                rows: self.rows.push(Row { id: self.next_id, name, description }),
                next_id: self.next_id + 1,
            }
        } else {
            self
        }
    }

    /// The table after an update of the row `id`.
    pub open spec fn update(self, id: int, name: Seq<char>, description: Seq<char>) -> TableView {
        TableView { rows: updated(self.rows, id, name, description), next_id: self.next_id }
    }

    /// The table after a delete of the row `id`.
    pub open spec fn delete(self, id: int) -> TableView {
        TableView { rows: deleted(self.rows, id), next_id: self.next_id }
    }

    /// The table after `statement`.
    pub open spec fn run(self, statement: StatementView) -> TableView {
        match statement {
            StatementView::SelectAll => self,
            StatementView::Insert { name, description } => self.create(name, description),
            StatementView::Update { id, name, description } => self.update(id, name, description),
            StatementView::Delete { id } => self.delete(id),
        }
    }

    /// What the table answers to `statement`: its rows to the query, the
    /// number of rows written or removed to the others, and a failure to an
    /// insert that finds no id left.
    pub open spec fn reply(self, statement: StatementView) -> StoreReplyView {
        match statement {
            StatementView::SelectAll => StoreReplyView::Rows(self.rows),
            StatementView::Insert { .. } => if self.can_create() {
                StoreReplyView::Affected(1)
            } else {
                StoreReplyView::Failed(ids_exhausted_text())
            },
            StatementView::Update { id, .. } => StoreReplyView::Affected(count_id(self.rows, id)),
            StatementView::Delete { id } => StoreReplyView::Affected(count_id(self.rows, id)),
        }
    }

    /// The table after a handler's step: after its statement where it runs
    /// one, unchanged where it answers at once.
    pub open spec fn after(self, step: StepView) -> TableView {
        match step {
            StepView::Run(statement) => self.run(statement),
            StepView::Reply(_) => self,
        }
    }

    /// The response that ends a handler's step on this table.
    pub open spec fn response(self, step: StepView) -> ResponseView {
        match step {
            StepView::Run(statement) => response_to(statement, self.reply(statement)),
            StepView::Reply(response) => response,
        }
    }
}

/// Every row that a delete keeps was in the table before, and none of them
/// has the deleted id.
pub proof fn lemma_deleted_rows(rows: Seq<Row>, id: int)
    ensures
        deleted(rows, id).len() + count_id(rows, id) == rows.len(),
        !has_id(deleted(rows, id), id),
        forall|k: int|
            0 <= k < deleted(rows, id).len() ==> rows.contains(#[trigger] deleted(rows, id)[k]),
        forall|i: int|
            0 <= i < rows.len() && rows[i].id != id ==> deleted(rows, id).contains(
                #[trigger] rows[i],
            ),
        distinct_ids(rows) ==> distinct_ids(deleted(rows, id)),
    decreases rows.len(),
{
    let kept = deleted(rows, id);
    if rows.len() > 0 {
        let front = rows.drop_last();
        let rest = deleted(front, id);
        lemma_deleted_rows(front, id);
        assert forall|k: int| 0 <= k < kept.len() implies rows.contains(#[trigger] kept[k]) by {
            if k < rest.len() {
                let j = choose|j: int| 0 <= j < front.len() && front[j] == rest[k];
                assert(rows[j] == kept[k]);
            }
        }
        assert forall|i: int| 0 <= i < rows.len() && rows[i].id != id implies kept.contains(
            #[trigger] rows[i],
        ) by {
            if i < front.len() {
                let k = choose|k: int| 0 <= k < rest.len() && rest[k] == front[i];
                assert(kept[k] == rows[i]);
            } else {
                assert(kept[kept.len() - 1] == rows[i]);
            }
        }
        if has_id(kept, id) {
            let k = choose|k: int| 0 <= k < kept.len() && (#[trigger] kept[k]).id == id;
            assert(has_id(rest, id));
        }
        if distinct_ids(rows) {
            lemma_front_is_distinct(rows);
            assert forall|a: int, b: int| 0 <= a < b < kept.len() implies (#[trigger] kept[a]).id
                != (#[trigger] kept[b]).id by {
                if b == rest.len() {
                    let j = choose|j: int| 0 <= j < front.len() && front[j] == rest[a];
                    assert(rows[j].id != rows.last().id);
                }
            }
        }
    }
}

/// Rows without shared ids stay so when the last one is left out.
pub proof fn lemma_front_is_distinct(rows: Seq<Row>)
    requires
        rows.len() > 0,
        distinct_ids(rows),
    ensures
        distinct_ids(rows.drop_last()),
{
    let front = rows.drop_last();
    assert forall|i: int, j: int| 0 <= i < j < front.len() implies (#[trigger] front[i]).id != (
    #[trigger] front[j]).id by {
        assert(rows[i].id != rows[j].id);
    }
}

/// In a table without shared ids at most one row has a given id, and one
/// has it exactly where the id is in the table.
pub proof fn lemma_count_of_distinct(rows: Seq<Row>, id: int)
    requires
        distinct_ids(rows),
    ensures
        count_id(rows, id) == (if has_id(rows, id) { 1nat } else { 0nat }),
    decreases rows.len(),
{
    if rows.len() > 0 {
        let front = rows.drop_last();
        lemma_front_is_distinct(rows);
        lemma_count_of_distinct(front, id);
        if has_id(front, id) {
            let i = choose|i: int| 0 <= i < front.len() && (#[trigger] front[i]).id == id;
            assert(rows[i].id == id && rows[i].id != rows.last().id);
        } else if rows.last().id != id && has_id(rows, id) {
            let i = choose|i: int| 0 <= i < rows.len() && (#[trigger] rows[i]).id == id;
            assert(front[i].id == id);
        }
    }
}

/// Every statement keeps a valid table valid.
pub proof fn lemma_run_keeps_valid(table: TableView, statement: StatementView)
    requires
        table.valid(),
    ensures
        table.run(statement).valid(),
{
    let after = table.run(statement);
    match statement {
        StatementView::SelectAll => {},
        StatementView::Insert { .. } => {
            if table.can_create() {
                assert forall|i: int, j: int| 0 <= i < j < after.rows.len() implies (
                #[trigger] after.rows[i]).id != (#[trigger] after.rows[j]).id by {
                    if j == table.rows.len() {
                        assert(table.rows[i].id < table.next_id);
                    }
                }
            }
        },
        StatementView::Update { .. } => {
            assert forall|i: int| 0 <= i < after.rows.len() implies (#[trigger] after.rows[i]).id
                == table.rows[i].id by {}
        },
        StatementView::Delete { id } => {
            lemma_deleted_rows(table.rows, id);
            assert forall|k: int| 0 <= k < after.rows.len() implies 1 <= (
            #[trigger] after.rows[k]).id < after.next_id by {
                let j = choose|j: int| 0 <= j < table.rows.len() && table.rows[j] == after.rows[k];
                assert(1 <= table.rows[j].id < table.next_id);
            }
        },
    }
}

/// An in-memory items table.
pub struct ItemTable {
    rows: Vec<Item>,
    next_id: i64,
}

impl View for ItemTable {
    type V = TableView;

    closed spec fn view(&self) -> TableView {
        TableView { rows: rows_of(self.rows@), next_id: self.next_id as int }
    }
}

impl ItemTable {
    #[verifier::type_invariant]
    spec fn well_formed(self) -> bool {
        self@.valid()
    }

    /// An empty table whose first row will get id 1.
    pub fn new() -> (table: ItemTable)
        ensures
            table@ == (TableView { rows: Seq::empty(), next_id: 1 }),
            table@.valid(),
    {
        let table = ItemTable { rows: Vec::new(), next_id: 1 };
        assert(table@.rows =~= Seq::<Row>::empty());
        table
    }

    /// An empty table whose first row will get the id `first_id`. `None`
    /// where `first_id` is not positive: ids start at 1 or later.
    pub fn starting_at(first_id: i32) -> (table: Option<ItemTable>)
        ensures
            first_id < 1 ==> table is None,
            first_id >= 1 ==> table is Some && table->0@ == (TableView {
                rows: Seq::empty(),
                next_id: first_id as int,
            }) && table->0@.valid(),
    {
        if first_id < 1 {
            return None;
        }
        let table = ItemTable { rows: Vec::new(), next_id: first_id as i64 };
        assert(table@.rows =~= Seq::<Row>::empty());
        Some(table)
    }

    /// Every row, in the order of the table.
    pub fn list_all(&self) -> (items: Vec<Item>)
        ensures
            rows_of(items@) == self@.rows,
            self@.valid(),
    {
        proof {
            use_type_invariant(self);
        }
        copy_items(&self.rows)
    }

    /// Adds a row with the next id. Gives the number of rows added, which
    /// is 1, or the failure of a table whose ids are used up, which is left
    /// as it was.
    pub fn create(&mut self, name: &str, description: &str) -> (done: Result<u64, String>)
        ensures
            final(self)@ == old(self)@.create(name@, description@),
            final(self)@.valid(),
            match done {
                Ok(count) => old(self)@.can_create() && count == 1,
                Err(reason) => !old(self)@.can_create() && reason@ == ids_exhausted_text(),
            },
    {
        proof {
            use_type_invariant(&*self);
            lemma_run_keeps_valid(
                self@,
                StatementView::Insert { name: name@, description: description@ },
            );
        }
        if self.next_id > 2147483647 {
            return Err(String::from_str("reached maximum value of sequence \"items_id_seq\""));
        }
        let item = Item {
            id: self.next_id as i32,
            name: String::from_str(name),
            description: String::from_str(description),
        };
        let ghost before = self@;
        let mut rows: Vec<Item> = Vec::new();
        std::mem::swap(&mut self.rows, &mut rows);
        rows.push(item);
        assert(rows_of(rows@) =~= before.create(name@, description@).rows);
        let next_id = self.next_id + 1;
        *self = ItemTable { rows, next_id };
        Ok(1)
    }

    /// Overwrites name and description of the row `id`, and gives the
    /// number of rows written: none where no row has that id, which is no
    /// failure.
    pub fn update(&mut self, id: i32, name: &str, description: &str) -> (count: u64)
        ensures
            final(self)@ == old(self)@.update(id as int, name@, description@),
            final(self)@.valid(),
            count == count_id(old(self)@.rows, id as int),
    {
        proof {
            use_type_invariant(&*self);
            lemma_run_keeps_valid(
                self@,
                StatementView::Update { id: id as int, name: name@, description: description@ },
            );
        }
        let ghost before = self@.rows;
        let mut rows: Vec<Item> = Vec::new();
        let mut count: u64 = 0;
        let mut i: usize = 0;
        while i < self.rows.len()
            invariant
                i <= self.rows.len(),
                before == rows_of(self.rows@),
                rows.len() == i,
                forall|j: int|
                    0 <= j < i ==> (#[trigger] rows@[j])@ == updated(
                        before,
                        id as int,
                        name@,
                        description@,
                    )[j],
                count == count_id(before.take(i as int), id as int),
                count <= i,
            decreases self.rows.len() - i,
        {
            proof {
                let next = before.take(i + 1);
                assert(next.drop_last() =~= before.take(i as int));
            }
            if self.rows[i].id == id {
                rows.push(
                    Item {
                        id,
                        name: String::from_str(name),
                        description: String::from_str(description),
                    },
                );
                count = count + 1;
            } else {
                rows.push(self.rows[i].clone());
            }
            i = i + 1;
        }
        assert(before.take(i as int) =~= before);
        assert(rows_of(rows@) =~= updated(before, id as int, name@, description@));
        let next_id = self.next_id;
        *self = ItemTable { rows, next_id };
        count
    }

    /// Removes the row `id`, and gives the number of rows removed: none
    /// where no row has that id, which is no failure.
    pub fn delete(&mut self, id: i32) -> (count: u64)
        ensures
            final(self)@ == old(self)@.delete(id as int),
            final(self)@.valid(),
            count == count_id(old(self)@.rows, id as int),
    {
        proof {
            use_type_invariant(&*self);
            lemma_run_keeps_valid(self@, StatementView::Delete { id: id as int });
        }
        let ghost before = self@.rows;
        let mut rows: Vec<Item> = Vec::new();
        let mut count: u64 = 0;
        let mut i: usize = 0;
        while i < self.rows.len()
            invariant
                i <= self.rows.len(),
                before == rows_of(self.rows@),
                rows_of(rows@) == deleted(before.take(i as int), id as int),
                count == count_id(before.take(i as int), id as int),
                count <= i,
            decreases self.rows.len() - i,
        {
            proof {
                let next = before.take(i + 1);
                assert(next.drop_last() =~= before.take(i as int));
            }
            if self.rows[i].id == id {
                count = count + 1;
            } else {
                rows.push(self.rows[i].clone());
            }
            i = i + 1;
        }
        assert(before.take(i as int) =~= before);
        let next_id = self.next_id;
        *self = ItemTable { rows, next_id };
        count
    }

    /// Runs `statement` as the store would, and gives its answer.
    pub fn run(&mut self, statement: &Statement) -> (reply: StoreReply)
        ensures
            final(self)@ == old(self)@.run(statement@),
            final(self)@.valid(),
            reply@ == old(self)@.reply(statement@),
    {
        match statement {
            Statement::SelectAll => StoreReply::Rows(self.list_all()),
            Statement::Insert { name, description } => {
                match self.create(name.as_str(), description.as_str()) {
                    Ok(count) => StoreReply::Affected(count),
                    Err(reason) => StoreReply::Failed(reason),
                }
            },
            Statement::Update { id, name, description } => StoreReply::Affected(
                self.update(*id, name.as_str(), description.as_str()),
            ),
            Statement::Delete { id } => StoreReply::Affected(self.delete(*id)),
        }
    }

    /// Carries a handler's step to its end on this table: runs the
    /// statement of a step that has one and answers from the table's
    /// reply, and hands back the response of a step that answers at once,
    /// in which case the table stays as it was.
    pub fn serve(&mut self, step: Step) -> (response: Response)
        ensures
            final(self)@ == old(self)@.after(step@),
            final(self)@.valid(),
            response@ == old(self)@.response(step@),
    {
        match step {
            Step::Run(statement) => {
                let reply = self.run(&statement);
                respond(&statement, reply)
            },
            Step::Reply(response) => {
                proof {
                    use_type_invariant(&*self);
                }
                response
            },
        }
    }
}

} // verus!
