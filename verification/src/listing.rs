//! The text that lists items, one line each.

use vstd::prelude::*;
use crate::decimal::{render_i32, signed_decimal};
use crate::item::{rows_of, Item, Row};

verus! {

/// The line of one row: `id: <id>, name: <name>, description: <description>`
/// and a line feed.
pub open spec fn line(row: Row) -> Seq<char> {
    "id: "@ + signed_decimal(row.id) + ", name: "@ + row.name + ", description: "@
        + row.description + "\n"@
}

/// The lines of the rows, one after the other in the order of the rows.
pub open spec fn listing(rows: Seq<Row>) -> Seq<char>
    decreases rows.len(),
{
    if rows.len() == 0 {
        Seq::empty()
    } else {
        listing(rows.drop_last()) + line(rows.last())
    }
}

/// Appends the line of `item` to `out`.
pub fn push_line(out: &mut String, item: &Item)
    ensures
        final(out)@ == old(out)@ + line(item@),
{
    out.append("id: ");
    let id = render_i32(item.id);
    out.append(id.as_str());
    out.append(", name: ");
    out.append(item.name.as_str());
    out.append(", description: ");
    out.append(item.description.as_str());
    out.append("\n");
}

/// Lists `items`: the line of each, in order. No item gives the empty text.
pub fn render_items(items: &Vec<Item>) -> (text: String)
    ensures
        text@ == listing(rows_of(items@)),
{
    let mut text = String::new();
    let mut i: usize = 0;
    while i < items.len()
        invariant
            i <= items.len(),
            text@ == listing(rows_of(items@).take(i as int)),
        decreases items.len() - i,
    {
        proof {
            let rows = rows_of(items@);
            let next = rows.take(i + 1);
            assert(next.drop_last() =~= rows.take(i as int));
        }
        push_line(&mut text, &items[i]);
        i = i + 1;
    }
    assert(rows_of(items@).take(i as int) =~= rows_of(items@));
    text
}

} // verus!
