//! What holds of the repository whatever the table holds and whatever the
//! request carries. Each law is stated over the rows of the table and the
//! steps of the handlers, and proved.

use vstd::prelude::*;
use crate::decimal::{i32_of, lemma_i32_text_round_trip, signed_decimal};
use crate::handler::{
    create_step, delete_step, response_to, update_step, StepView, StoreReplyView,
};
use crate::item::{ItemData, Row, UpdatedItemData};
use crate::listing::{line, listing};
use crate::response::{BAD_REQUEST, OK};
use crate::route::{collection_path, item_segment, route_of, Method, RouteView};
use crate::statement::StatementView;
use crate::table::{
    count_id, deleted, has_id, lemma_count_of_distinct, lemma_deleted_rows, lemma_run_keeps_valid,
    updated, TableView,
};

verus! {

/// A created item is listed. Where the table has an id left, the insert
/// succeeds, every row that was listed before is listed in its old place,
/// and the listing ends with a new row that holds the given name and
/// description under an id that no row had.
pub proof fn law_created_item_is_listed(table: TableView, name: Seq<char>, description: Seq<char>)
    requires
        table.valid(),
        table.can_create(),
    ensures
        ({
            let insert = StatementView::Insert { name, description };
            let after = table.run(insert);
            let created = Row { id: table.next_id, name, description };
            &&& table.reply(insert) == StoreReplyView::Affected(1)
            &&& response_to(insert, table.reply(insert)).is_success()
            &&& after.reply(StatementView::SelectAll) == StoreReplyView::Rows(after.rows)
            &&& after.rows == table.rows.push(created)
            &&& after.rows.contains(created)
            &&& !has_id(table.rows, created.id)
            &&& listing(after.rows) == listing(table.rows) + line(created)
        }),
{
    let created = Row { id: table.next_id, name, description };
    let rows = table.rows.push(created);
    assert(rows[rows.len() - 1] == created);
    assert(rows.drop_last() =~= table.rows);
    if has_id(table.rows, created.id) {
        let i = choose|i: int| 0 <= i < table.rows.len() && (#[trigger] table.rows[i]).id
            == created.id;
        assert(table.rows[i].id < table.next_id);
    }
}

/// An update overwrites the whole row. Where a row has the id, the update
/// succeeds and writes one row; afterwards the row with that id holds the
/// new name and description and nothing of the old ones, and every other
/// row is as it was, in its old place.
pub proof fn law_update_overwrites(
    table: TableView,
    id: int,
    name: Seq<char>,
    description: Seq<char>,
)
    requires
        table.valid(),
        has_id(table.rows, id),
    ensures
        ({
            let update = StatementView::Update { id, name, description };
            let after = table.run(update);
            &&& table.reply(update) == StoreReplyView::Affected(1)
            &&& response_to(update, table.reply(update)).is_success()
            &&& after.rows.len() == table.rows.len()
            &&& after.rows.contains(Row { id, name, description })
            &&& forall|i: int|
                0 <= i < after.rows.len() && (#[trigger] after.rows[i]).id == id ==> after.rows[i]
                    == (Row { id, name, description })
            &&& forall|i: int|
                0 <= i < table.rows.len() && (#[trigger] table.rows[i]).id != id ==> after.rows[i]
                    == table.rows[i]
            &&& after.next_id == table.next_id
        }),
{
    lemma_count_of_distinct(table.rows, id);
    let after = updated(table.rows, id, name, description);
    let i = choose|i: int| 0 <= i < table.rows.len() && (#[trigger] table.rows[i]).id == id;
    assert(after[i] == Row { id, name, description });
}

/// A delete removes exactly one row. Where a row has the id, the delete
/// succeeds and removes one row; afterwards no row has that id, and the
/// rows with another id are those that were there before, no more and no
/// fewer.
pub proof fn law_delete_removes_one(table: TableView, id: int)
    requires
        table.valid(),
        has_id(table.rows, id),
    ensures
        ({
            let delete = StatementView::Delete { id };
            let after = table.run(delete);
            &&& table.reply(delete) == StoreReplyView::Affected(1)
            &&& response_to(delete, table.reply(delete)).is_success()
            &&& !has_id(after.rows, id)
            &&& after.rows.len() == table.rows.len() - 1
            &&& forall|row: Row|
                row.id != id ==> (#[trigger] after.rows.contains(row) <==> table.rows.contains(
                    row,
                ))
            &&& after.next_id == table.next_id
        }),
{
    lemma_count_of_distinct(table.rows, id);
    lemma_deleted_rows(table.rows, id);
    let after = deleted(table.rows, id);
    assert forall|row: Row| row.id != id implies (#[trigger] after.contains(row)
        <==> table.rows.contains(row)) by {
        if after.contains(row) {
            let k = choose|k: int| 0 <= k < after.len() && after[k] == row;
            assert(table.rows.contains(after[k]));
        }
        if table.rows.contains(row) {
            let i = choose|i: int| 0 <= i < table.rows.len() && table.rows[i] == row;
            assert(after.contains(table.rows[i]));
        }
    }
}

/// A delete of an id that no row has keeps every row in its place.
pub proof fn lemma_delete_of_missing(rows: Seq<Row>, id: int)
    requires
        !has_id(rows, id),
    ensures
        deleted(rows, id) == rows,
        count_id(rows, id) == 0,
    decreases rows.len(),
{
    if rows.len() > 0 {
        let front = rows.drop_last();
        if has_id(front, id) {
            let i = choose|i: int| 0 <= i < front.len() && (#[trigger] front[i]).id == id;
            assert(rows[i].id == id);
        }
        lemma_delete_of_missing(front, id);
    }
}

/// An update or a delete of an id that no row has succeeds and changes
/// nothing: the table is what it was, the store reports no row touched,
/// and the response has status 200 with the usual confirmation.
pub proof fn law_missing_id_is_no_failure(
    table: TableView,
    id: int,
    name: Seq<char>,
    description: Seq<char>,
)
    requires
        !has_id(table.rows, id),
    ensures
        ({
            let update = StatementView::Update { id, name, description };
            let delete = StatementView::Delete { id };
            &&& table.run(update) == table
            &&& table.run(delete) == table
            &&& table.reply(update) == StoreReplyView::Affected(0)
            &&& table.reply(delete) == StoreReplyView::Affected(0)
            &&& response_to(update, table.reply(update)).status == OK
            &&& response_to(delete, table.reply(delete)).status == OK
        }),
{
    lemma_delete_of_missing(table.rows, id);
    assert(updated(table.rows, id, name, description) =~= table.rows) by {
        assert forall|i: int| 0 <= i < table.rows.len() implies table.rows[i].id != id by {
            if table.rows[i].id == id {
                assert(has_id(table.rows, id));
            }
        }
    }
}

/// However many rows a statement touched, also none, its handler answers
/// with status 200 unless the store failed.
pub proof fn law_success_whatever_was_touched(statement: StatementView, count: nat)
    ensures
        response_to(statement, StoreReplyView::Affected(count)).status == OK,
        response_to(statement, StoreReplyView::Affected(count)) == response_to(
            statement,
            StoreReplyView::Affected(0),
        ),
{
}

/// A body that was not decoded is rejected before the store is reached:
/// the create and the update handler answer with status 400 and the
/// decoder's reason, and the table is what it was.
pub proof fn law_refused_body_is_rejected(table: TableView, reason: String)
    ensures
        ({
            let create = create_step(Err::<ItemData, String>(reason));
            let update = update_step(Err::<UpdatedItemData, String>(reason));
            &&& create is Reply
            &&& update is Reply
            &&& table.response(create).status == BAD_REQUEST
            &&& table.response(update).status == BAD_REQUEST
            &&& table.response(create).is_client_error()
            &&& table.response(create).body == reason@
            &&& table.response(update).body == reason@
            &&& table.after(create) == table
            &&& table.after(update) == table
        }),
{
}

/// A path segment that spells no 32-bit integer is rejected before the
/// store is reached: any method and path that reach the delete handler
/// with such a segment are answered with status 400, and the table is what
/// it was.
pub proof fn law_bad_id_is_rejected(table: TableView, segment: Seq<char>)
    requires
        i32_of(segment) is None,
    ensures
        ({
            let step = delete_step(segment);
            &&& step is Reply
            &&& table.response(step).status == BAD_REQUEST
            &&& table.response(step).is_client_error()
            &&& table.after(step) == table
        }),
{
}

/// Only `DELETE` on `/items/` and one more segment reaches the delete
/// handler, and it does so with that segment, whatever it holds.
pub proof fn law_delete_route(method: Method, segment: Seq<char>)
    requires
        segment.len() > 0,
        !segment.contains('/'),
    ensures
        ({
            let path = collection_path().push('/') + segment;
            route_of(method, path) == (if method == Method::Delete {
                RouteView::DeleteItem { segment }
            } else {
                RouteView::MethodNotAllowed
            })
        }),
{
    let prefix = collection_path().push('/');
    let path = prefix + segment;
    assert(path.take(prefix.len() as int) =~= prefix);
    assert(item_segment(path) == Some(segment));
}

/// The id that a listing shows names its row again: handed to the delete
/// handler as a path segment, the text of an id becomes the delete of just
/// that id.
pub proof fn law_listed_id_is_accepted(id: i32)
    ensures
        delete_step(signed_decimal(id as int)) == StepView::Run(
            StatementView::Delete { id: id as int },
        ),
{
    lemma_i32_text_round_trip(id);
}

/// Two creates that reach the store one after the other, in either order,
/// both succeed and both rows are listed afterwards, with every row that
/// was there before: none is lost and none is changed.
pub proof fn law_two_creates_keep_both(
    table: TableView,
    first: (Seq<char>, Seq<char>),
    second: (Seq<char>, Seq<char>),
)
    requires
        table.valid(),
        table.next_id + 1 <= i32::MAX,
    ensures
        ({
            let one = table.create(first.0, first.1).create(second.0, second.1);
            let other = table.create(second.0, second.1).create(first.0, first.1);
            let a = table.next_id;
            let b = table.next_id + 1;
            &&& table.can_create()
            &&& table.create(first.0, first.1).can_create()
            &&& table.create(second.0, second.1).can_create()
            &&& one.valid()
            &&& other.valid()
            &&& one.rows.len() == table.rows.len() + 2
            &&& other.rows.len() == table.rows.len() + 2
            &&& one.rows.contains(Row { id: a, name: first.0, description: first.1 })
            &&& one.rows.contains(Row { id: b, name: second.0, description: second.1 })
            &&& other.rows.contains(Row { id: a, name: second.0, description: second.1 })
            &&& other.rows.contains(Row { id: b, name: first.0, description: first.1 })
            &&& forall|i: int|
                0 <= i < table.rows.len() ==> one.rows[i] == table.rows[i] && other.rows[i]
                    == table.rows[i]
        }),
{
    let n = table.rows.len() as int;
    let one = table.create(first.0, first.1).create(second.0, second.1);
    let other = table.create(second.0, second.1).create(first.0, first.1);
    lemma_run_keeps_valid(
        table,
        StatementView::Insert { name: first.0, description: first.1 },
    );
    lemma_run_keeps_valid(
        table.create(first.0, first.1),
        StatementView::Insert { name: second.0, description: second.1 },
    );
    lemma_run_keeps_valid(
        table,
        StatementView::Insert { name: second.0, description: second.1 },
    );
    lemma_run_keeps_valid(
        table.create(second.0, second.1),
        StatementView::Insert { name: first.0, description: first.1 },
    );
    assert(one.rows[n] == Row { id: table.next_id, name: first.0, description: first.1 });
    assert(one.rows[n + 1] == Row { id: table.next_id + 1, name: second.0, description: second.1 });
    assert(other.rows[n] == Row { id: table.next_id, name: second.0, description: second.1 });
    assert(other.rows[n + 1] == Row { id: table.next_id + 1, name: first.0, description: first.1 });
}

} // verus!
