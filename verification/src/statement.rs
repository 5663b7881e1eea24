//! The statements that the repository hands to the store. The text of a
//! statement is fixed; every value of a request travels as a bound
//! parameter, never inside the text.

use vstd::prelude::*;
use crate::item::{ItemData, UpdatedItemData};

verus! {

/// A bound parameter as contracts see it.
pub ghost enum ParamView {
    Text(Seq<char>),
    Int(int),
}

/// A value bound to a placeholder of a statement.
#[derive(Debug, PartialEq, Eq)]
pub enum Param {
    Text(String),
    Int(i32),
}

impl View for Param {
    type V = ParamView;

    open spec fn view(&self) -> ParamView {
        match self {
            Param::Text(text) => ParamView::Text(text@),
            Param::Int(number) => ParamView::Int(*number as int),
        }
    }
}

/// A statement as contracts see it.
pub ghost enum StatementView {
    SelectAll,
    Insert { name: Seq<char>, description: Seq<char> },
    Update { id: int, name: Seq<char>, description: Seq<char> },
    Delete { id: int },
}

/// One of the four statements of the repository, with the values it binds.
#[derive(Debug, PartialEq, Eq)]
pub enum Statement {
    /// Reads every row.
    SelectAll,
    /// Adds a row; the store assigns its id.
    Insert { name: String, description: String },
    /// Overwrites name and description of the row with this id.
    Update { id: i32, name: String, description: String },
    /// Removes the row with this id.
    Delete { id: i32 },
}

impl View for Statement {
    type V = StatementView;

    open spec fn view(&self) -> StatementView {
        match self {
            Statement::SelectAll => StatementView::SelectAll,
            Statement::Insert { name, description } => StatementView::Insert {
                name: name@,
                description: description@,
            },
            Statement::Update { id, name, description } => StatementView::Update {
                id: *id as int,
                name: name@,
                description: description@,
            },
            Statement::Delete { id } => StatementView::Delete { id: *id as int },
        }
    }
}

impl StatementView {
    /// The text of the statement. It depends on the kind of statement alone.
    pub open spec fn sql(self) -> Seq<char> {
        match self {
            StatementView::SelectAll => "SELECT id, name, description FROM items"@,
            StatementView::Insert { .. } => "INSERT INTO items (name, description) VALUES ($1, $2)"@,
            StatementView::Update { .. } => "UPDATE items SET name = $1, description = $2 WHERE id = $3"@,
            StatementView::Delete { .. } => "DELETE FROM items WHERE id = $1"@,
        }
    }

    /// The values bound to `$1`, `$2`, ... in that order.
    pub open spec fn params(self) -> Seq<ParamView> {
        match self {
            StatementView::SelectAll => seq![],
            StatementView::Insert { name, description } => seq![
                ParamView::Text(name),
                ParamView::Text(description),
            ],
            StatementView::Update { id, name, description } => seq![
                ParamView::Text(name),
                ParamView::Text(description),
                ParamView::Int(id),
            ],
            StatementView::Delete { id } => seq![ParamView::Int(id)],
        }
    }

    /// Whether the store answers the statement with rows, not with a count.
    pub open spec fn returns_rows(self) -> bool {
        self is SelectAll
    }
}

/// The views of a list of parameters, in order.
pub open spec fn params_of(params: Seq<Param>) -> Seq<ParamView> {
    params.map_values(|param: Param| param@)
}

impl Statement {
    /// The statement that reads every row.
    pub fn select_all() -> (statement: Statement)
        ensures
            statement@ == StatementView::SelectAll,
    {
        Statement::SelectAll
    }

    /// The statement that adds a row with the fields of `data`.
    pub fn insert(data: &ItemData) -> (statement: Statement)
        ensures
            statement@ == (StatementView::Insert {
                name: data.name@,
                description: data.description@,
            }),
    {
        Statement::Insert { name: data.name.clone(), description: data.description.clone() }
    }

    /// The statement that overwrites the row `data.id` with the other fields
    /// of `data`.
    pub fn update(data: &UpdatedItemData) -> (statement: Statement)
        ensures
            statement@ == (StatementView::Update {
                id: data.id as int,
                name: data.name@,
                description: data.description@,
            }),
    {
        Statement::Update {
            id: data.id,
            name: data.name.clone(),
            description: data.description.clone(),
        }
    }

    /// The statement that removes the row `id`.
    pub fn delete(id: i32) -> (statement: Statement)
        ensures
            statement@ == (StatementView::Delete { id: id as int }),
    {
        Statement::Delete { id }
    }

    /// The text to hand to the store.
    pub fn sql(&self) -> (text: &'static str)
        ensures
            text@ == self@.sql(),
    {
        match self {
            Statement::SelectAll => "SELECT id, name, description FROM items",
            Statement::Insert { .. } => "INSERT INTO items (name, description) VALUES ($1, $2)",
            Statement::Update { .. } => "UPDATE items SET name = $1, description = $2 WHERE id = $3",
            Statement::Delete { .. } => "DELETE FROM items WHERE id = $1",
        }
    }

    /// The values to bind, in the order of the placeholders.
    pub fn params(&self) -> (params: Vec<Param>)
        ensures
            params_of(params@) == self@.params(),
    {
        let mut params: Vec<Param> = Vec::new();
        match self {
            Statement::SelectAll => {},
            Statement::Insert { name, description } => {
                params.push(Param::Text(name.clone()));
                params.push(Param::Text(description.clone()));
            },
            Statement::Update { id, name, description } => {
                params.push(Param::Text(name.clone()));
                params.push(Param::Text(description.clone()));
                params.push(Param::Int(*id));
            },
            Statement::Delete { id } => {
                params.push(Param::Int(*id));
            },
        }
        params
    }

    /// Whether the store answers with rows, so that the statement is to be
    /// sent as a query.
    pub fn returns_rows(&self) -> (yes: bool)
        ensures
            yes == self@.returns_rows(),
    {
        match self {
            Statement::SelectAll => true,
            _ => false,
        }
    }
}

/// The text of a statement stays the same whatever its values are: two
/// statements of one kind have one text.
pub proof fn lemma_sql_ignores_values(a: StatementView, b: StatementView)
    requires
        a is SelectAll <==> b is SelectAll,
        a is Insert <==> b is Insert,
        a is Update <==> b is Update,
        a is Delete <==> b is Delete,
    ensures
        a.sql() == b.sql(),
{
}

} // verus!
