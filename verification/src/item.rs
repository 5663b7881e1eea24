//! The item, the one entity of the service, and the bodies that create and
//! update one.

use vstd::prelude::*;

verus! {

/// A row of the items table as contracts see it.
pub ghost struct Row {
    pub id: int,
    pub name: Seq<char>,
    pub description: Seq<char>,
}

/// An item as the store holds it. The store assigns the id when the row is
/// created; name and description are free text.
#[derive(Debug, PartialEq, Eq)]
pub struct Item {
    pub id: i32,
    pub name: String,
    pub description: String,
}

impl View for Item {
    type V = Row;

    open spec fn view(&self) -> Row {
        Row { id: self.id as int, name: self.name@, description: self.description@ }
    }
}

impl Clone for Item {
    fn clone(&self) -> (copy: Self)
        ensures
            copy@ == self@,
    {
        Item { id: self.id, name: self.name.clone(), description: self.description.clone() }
    }
}

/// The body of a request that creates an item: both fields are required.
#[derive(Debug, PartialEq, Eq)]
pub struct ItemData {
    pub name: String,
    pub description: String,
}

/// The body of a request that updates an item: the id of the row and the
/// new value of every other field.
#[derive(Debug, PartialEq, Eq)]
pub struct UpdatedItemData {
    pub id: i32,
    pub name: String,
    pub description: String,
}

/// The rows that a sequence of items stands for, in the same order.
pub open spec fn rows_of(items: Seq<Item>) -> Seq<Row> {
    items.map_values(|item: Item| item@)
}

/// Copies a list of items.
pub fn copy_items(items: &Vec<Item>) -> (copy: Vec<Item>)
    ensures
        rows_of(copy@) == rows_of(items@),
{
    let mut copy: Vec<Item> = Vec::new();
    let mut i: usize = 0;
    while i < items.len()
        invariant
            i <= items.len(),
            copy.len() == i,
            forall|j: int| 0 <= j < i ==> (#[trigger] copy@[j])@ == items@[j]@,
        decreases items.len() - i,
    {
        copy.push(items[i].clone());
        i = i + 1;
    }
    copy
}

} // verus!
