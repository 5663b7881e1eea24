//! The four handlers. Each one is two decisions with the store between
//! them: first what to do with the decoded request, then what to answer
//! once the store has replied. The caller does the work in between: it
//! sends the statement of a [`Step::Run`] to the store and comes back with
//! the [`StoreReply`].

use vstd::prelude::*;
use crate::decimal::{i32_of, parse_i32};
use crate::item::{rows_of, Item, ItemData, Row, UpdatedItemData};
use crate::listing::{listing, render_items};
use crate::response::{
    database_error_text, MyError, Response, ResponseView, BAD_REQUEST, INTERNAL_SERVER_ERROR, OK,
};
use crate::statement::{Statement, StatementView};

verus! {

/// The answer of the store as contracts see it.
pub ghost enum StoreReplyView {
    Rows(Seq<Row>),
    Affected(nat),
    Failed(Seq<char>),
}

/// What the store answered to one statement.
#[derive(Debug, PartialEq, Eq)]
pub enum StoreReply {
    /// The rows of a query, in the order in which the store gave them.
    Rows(Vec<Item>),
    /// The statement ran; this many rows were written or removed. Zero is
    /// no failure.
    Affected(u64),
    /// The store reported a failure, in these words.
    Failed(String),
}

impl View for StoreReply {
    type V = StoreReplyView;

    open spec fn view(&self) -> StoreReplyView {
        match self {
            StoreReply::Rows(items) => StoreReplyView::Rows(rows_of(items@)),
            StoreReply::Affected(count) => StoreReplyView::Affected(*count as nat),
            StoreReply::Failed(detail) => StoreReplyView::Failed(detail@),
        }
    }
}

impl StoreReplyView {
    /// The rows that the answer carries: none unless it is `Rows`.
    pub open spec fn rows(self) -> Seq<Row> {
        match self {
            StoreReplyView::Rows(rows) => rows,
            _ => Seq::empty(),
        }
    }
}

/// A step as contracts see it.
pub ghost enum StepView {
    Run(StatementView),
    Reply(ResponseView),
}

/// What a handler does once the request is decoded.
#[derive(Debug, PartialEq, Eq)]
pub enum Step {
    /// Send this statement to the store, then go on with its answer.
    Run(Statement),
    /// Answer at once. The store is not touched.
    Reply(Response),
}

impl View for Step {
    type V = StepView;

    open spec fn view(&self) -> StepView {
        match self {
            Step::Run(statement) => StepView::Run(statement@),
            Step::Reply(response) => StepView::Reply(response@),
        }
    }
}

/// The body that rejects a path segment which is no id.
pub open spec fn bad_id_text(segment: Seq<char>) -> Seq<char> {
    "Invalid item id: "@ + segment
}

/// The body that confirms a statement which changed the table. A query has
/// no such body.
pub open spec fn confirmation(statement: StatementView) -> Seq<char> {
    match statement {
        StatementView::SelectAll => Seq::empty(),
        StatementView::Insert { .. } => "Item created successfully"@,
        StatementView::Update { .. } => "Item updated successfully"@,
        StatementView::Delete { .. } => "Item deleted successfully"@,
    }
}

/// The body that answers `statement` once the store has run it: the
/// listing of the rows for a query, the confirmation for the others.
pub open spec fn success_body(statement: StatementView, reply: StoreReplyView) -> Seq<char> {
    if statement is SelectAll {
        listing(reply.rows())
    } else {
        confirmation(statement)
    }
}

/// The response to `statement`, given what the store answered.
pub open spec fn response_to(statement: StatementView, reply: StoreReplyView) -> ResponseView {
    match reply {
        StoreReplyView::Failed(detail) => ResponseView {
            status: INTERNAL_SERVER_ERROR as int,
            body: database_error_text(detail),
        },
        _ => ResponseView { status: OK as int, body: success_body(statement, reply) },
    }
}

/// The first step of the create handler, for a body that was decoded or
/// was not.
pub open spec fn create_step(body: Result<ItemData, String>) -> StepView {
    match body {
        Ok(data) => StepView::Run(
            StatementView::Insert { name: data.name@, description: data.description@ },
        ),
        Err(reason) => StepView::Reply(
            ResponseView { status: BAD_REQUEST as int, body: reason@ },
        ),
    }
}

/// The first step of the update handler, for a body that was decoded or
/// was not.
pub open spec fn update_step(body: Result<UpdatedItemData, String>) -> StepView {
    match body {
        Ok(data) => StepView::Run(
            StatementView::Update {
                id: data.id as int,
                name: data.name@,
                description: data.description@,
            },
        ),
        Err(reason) => StepView::Reply(
            ResponseView { status: BAD_REQUEST as int, body: reason@ },
        ),
    }
}

/// The first step of the delete handler, for the path segment that names
/// the item.
pub open spec fn delete_step(segment: Seq<char>) -> StepView {
    match i32_of(segment) {
        Some(id) => StepView::Run(StatementView::Delete { id: id as int }),
        None => StepView::Reply(
            ResponseView { status: BAD_REQUEST as int, body: bad_id_text(segment) },
        ),
    }
}

/// Lists the items: always a query for every row.
pub fn get_items() -> (step: Step)
    ensures
        step@ == StepView::Run(StatementView::SelectAll),
{
    Step::Run(Statement::select_all())
}

/// Creates an item. `body` is the decoded body of the request, or the
/// decoder's reason for refusing it.
///
/// A decoded body becomes an insert of its two fields, as they stand. A
/// refused body is answered with status 400 and the reason, and nothing is
/// sent to the store.
pub fn create_item(body: Result<ItemData, String>) -> (step: Step)
    ensures
        step@ == create_step(body),
{
    match body {
        Ok(data) => Step::Run(Statement::insert(&data)),
        Err(reason) => Step::Reply(Response::bad_request(reason.as_str())),
    }
}

/// Updates an item. `body` is the decoded body of the request, or the
/// decoder's reason for refusing it.
///
/// A decoded body becomes an update of the row with its id, which
/// overwrites both other fields. A refused body is answered with status 400
/// and the reason, and nothing is sent to the store.
pub fn update_item(body: Result<UpdatedItemData, String>) -> (step: Step)
    ensures
        step@ == update_step(body),
{
    match body {
        Ok(data) => Step::Run(Statement::update(&data)),
        Err(reason) => Step::Reply(Response::bad_request(reason.as_str())),
    }
}

/// Deletes an item. `segment` is the part of the path that names it.
///
/// A segment that spells a 32-bit integer becomes a delete of the row with
/// that id. Any other segment is answered with status 400, and nothing is
/// sent to the store.
pub fn delete_item(segment: &str) -> (step: Step)
    ensures
        step@ == delete_step(segment@),
{
    match parse_i32(segment) {
        Some(id) => Step::Run(Statement::delete(id)),
        None => {
            let mut reason = String::from_str("Invalid item id: ");
            reason.append(segment);
            Step::Reply(Response::bad_request(reason.as_str()))
        },
    }
}

/// Decides how a handler ends, given the statement it sent and what the
/// store answered.
///
/// A failure of the store becomes the error that carries the store's
/// message behind a fixed prefix. Any other answer is a success with status
/// 200: the listing of the rows for the query, the confirmation for a
/// statement that changes the table, however many rows it touched.
pub fn conclude(statement: &Statement, reply: StoreReply) -> (outcome: Result<Response, MyError>)
    ensures
        match outcome {
            Ok(response) => !(reply@ is Failed) && response@ == response_to(statement@, reply@),
            Err(error) => reply@ is Failed && error@ == database_error_text(reply@->Failed_0),
        },
{
    match reply {
        StoreReply::Failed(detail) => Err(MyError::database(detail.as_str())),
        StoreReply::Rows(items) => {
            if statement.returns_rows() {
                Ok(Response { status: OK, body: render_items(&items) })
            } else {
                Ok(Response::ok(confirmation_text(statement)))
            }
        },
        StoreReply::Affected(_) => {
            if statement.returns_rows() {
                proof {
                    reveal_with_fuel(listing, 1);
                }
                Ok(Response { status: OK, body: String::new() })
            } else {
                Ok(Response::ok(confirmation_text(statement)))
            }
        },
    }
}

/// The response of a handler, given the statement it sent and what the
/// store answered: that of `conclude`, with an error turned into the
/// response that reports it.
pub fn respond(statement: &Statement, reply: StoreReply) -> (response: Response)
    ensures
        response@ == response_to(statement@, reply@),
{
    match conclude(statement, reply) {
        Ok(response) => response,
        Err(error) => error.error_response(),
    }
}

/// The confirmation of a statement, as text.
fn confirmation_text(statement: &Statement) -> (text: &'static str)
    ensures
        text@ == confirmation(statement@),
{
    match statement {
        Statement::SelectAll => {
            proof {
                reveal_strlit("");
            }
            ""
        },
        Statement::Insert { .. } => "Item created successfully",
        Statement::Update { .. } => "Item updated successfully",
        Statement::Delete { .. } => "Item deleted successfully",
    }
}

} // verus!
