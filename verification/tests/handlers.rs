use items_crud::{
    conclude, create_item, delete_item, get_items, respond, update_item, Item, ItemData, MyError,
    Response, Statement, Step, StoreReply, UpdatedItemData, BAD_REQUEST, INTERNAL_SERVER_ERROR,
    METHOD_NOT_ALLOWED, NOT_FOUND, OK,
};

fn item(id: i32, name: &str, description: &str) -> Item {
    Item { id, name: name.to_string(), description: description.to_string() }
}

fn response(status: u16, body: &str) -> Response {
    Response { status, body: body.to_string() }
}

#[test]
fn status_codes_have_their_numbers() {
    assert_eq!(OK, 200);
    assert_eq!(BAD_REQUEST, 400);
    assert_eq!(NOT_FOUND, 404);
    assert_eq!(METHOD_NOT_ALLOWED, 405);
    assert_eq!(INTERNAL_SERVER_ERROR, 500);
}

#[test]
fn responses_are_built_as_named() {
    assert_eq!(Response::new(201, "x"), response(201, "x"));
    assert_eq!(Response::ok("fine"), response(200, "fine"));
    assert_eq!(Response::bad_request("why"), response(400, "why"));
    assert_eq!(Response::not_found(), response(404, ""));
    assert_eq!(Response::method_not_allowed(), response(405, ""));
}

#[test]
fn success_is_the_two_hundreds() {
    assert!(response(200, "").is_success());
    assert!(response(299, "").is_success());
    assert!(!response(199, "").is_success());
    assert!(!response(300, "").is_success());
    assert!(!response(400, "").is_success());
    assert!(!response(500, "").is_success());
}

#[test]
fn a_store_failure_keeps_the_stores_words() {
    let error = MyError::database("relation \"items\" does not exist");
    assert_eq!(error, MyError("Database error: relation \"items\" does not exist".to_string()));
    assert_eq!(error.message(), "Database error: relation \"items\" does not exist");
    assert_eq!(error.status_code(), 500);
    assert_eq!(
        error.error_response(),
        response(500, "Database error: relation \"items\" does not exist")
    );
    assert_eq!(MyError::database("").message(), "Database error: ");
}

#[test]
fn listing_always_queries() {
    assert_eq!(get_items(), Step::Run(Statement::SelectAll));
}

#[test]
fn a_decoded_create_body_becomes_an_insert() {
    let body = ItemData { name: "Widget".to_string(), description: "A widget".to_string() };
    assert_eq!(
        create_item(Ok(body)),
        Step::Run(Statement::Insert {
            name: "Widget".to_string(),
            description: "A widget".to_string(),
        })
    );
}

#[test]
fn a_create_body_without_description_is_rejected() {
    let reason = "Json deserialize error: missing field `description` at line 1 column 19";
    let step = create_item(Err(reason.to_string()));
    assert_eq!(step, Step::Reply(response(400, reason)));
}

#[test]
fn a_decoded_update_body_becomes_an_update() {
    let body = UpdatedItemData { id: 7, name: "B".to_string(), description: "b".to_string() };
    assert_eq!(
        update_item(Ok(body)),
        Step::Run(Statement::Update { id: 7, name: "B".to_string(), description: "b".to_string() })
    );
}

#[test]
fn an_update_body_of_the_wrong_shape_is_rejected() {
    let reason = "Json deserialize error: invalid type: string \"7\", expected i32";
    assert_eq!(update_item(Err(reason.to_string())), Step::Reply(response(400, reason)));
}

#[test]
fn an_integer_segment_becomes_a_delete() {
    assert_eq!(delete_item("5"), Step::Run(Statement::Delete { id: 5 }));
    assert_eq!(delete_item("99999"), Step::Run(Statement::Delete { id: 99999 }));
    assert_eq!(delete_item("-3"), Step::Run(Statement::Delete { id: -3 }));
}

#[test]
fn a_segment_that_is_no_integer_is_rejected() {
    assert_eq!(delete_item("abc"), Step::Reply(response(400, "Invalid item id: abc")));
    assert_eq!(delete_item("1.5"), Step::Reply(response(400, "Invalid item id: 1.5")));
    assert_eq!(
        delete_item("2147483648"),
        Step::Reply(response(400, "Invalid item id: 2147483648"))
    );
    assert_eq!(delete_item(""), Step::Reply(response(400, "Invalid item id: ")));
}

#[test]
fn rows_are_answered_with_their_listing() {
    let rows = vec![item(1, "Widget", "A widget"), item(2, "Gadget", "A gadget")];
    assert_eq!(
        respond(&Statement::SelectAll, StoreReply::Rows(rows)),
        response(
            200,
            "id: 1, name: Widget, description: A widget\nid: 2, name: Gadget, description: A gadget\n"
        )
    );
    assert_eq!(respond(&Statement::SelectAll, StoreReply::Rows(Vec::new())), response(200, ""));
}

#[test]
fn changes_are_answered_with_their_confirmation() {
    let insert = Statement::Insert { name: "A".to_string(), description: "a".to_string() };
    let update = Statement::Update { id: 1, name: "B".to_string(), description: "b".to_string() };
    let delete = Statement::Delete { id: 1 };
    assert_eq!(
        respond(&insert, StoreReply::Affected(1)),
        response(200, "Item created successfully")
    );
    assert_eq!(
        respond(&update, StoreReply::Affected(1)),
        response(200, "Item updated successfully")
    );
    assert_eq!(
        respond(&delete, StoreReply::Affected(1)),
        response(200, "Item deleted successfully")
    );
}

#[test]
fn no_row_touched_is_still_success() {
    let update =
        Statement::Update { id: 99999, name: "x".to_string(), description: "y".to_string() };
    let delete = Statement::Delete { id: 99999 };
    assert_eq!(
        respond(&update, StoreReply::Affected(0)),
        response(200, "Item updated successfully")
    );
    assert_eq!(
        respond(&delete, StoreReply::Affected(0)),
        response(200, "Item deleted successfully")
    );
}

#[test]
fn a_store_failure_is_answered_with_status_500() {
    let statements = [
        Statement::SelectAll,
        Statement::Insert { name: "A".to_string(), description: "a".to_string() },
        Statement::Update { id: 1, name: "B".to_string(), description: "b".to_string() },
        Statement::Delete { id: 1 },
    ];
    for statement in statements.iter() {
        assert_eq!(
            respond(statement, StoreReply::Failed("connection closed".to_string())),
            response(500, "Database error: connection closed")
        );
    }
}

#[test]
fn concluding_tells_success_from_failure() {
    let delete = Statement::Delete { id: 1 };
    assert_eq!(
        conclude(&delete, StoreReply::Affected(1)),
        Ok(response(200, "Item deleted successfully"))
    );
    assert_eq!(
        conclude(&delete, StoreReply::Failed("db error".to_string())),
        Err(MyError("Database error: db error".to_string()))
    );
    assert_eq!(
        conclude(&Statement::SelectAll, StoreReply::Rows(vec![item(1, "a", "b")])),
        Ok(response(200, "id: 1, name: a, description: b\n"))
    );
}

#[test]
fn an_answer_without_rows_lists_nothing() {
    assert_eq!(respond(&Statement::SelectAll, StoreReply::Affected(3)), response(200, ""));
    assert_eq!(
        respond(&Statement::Delete { id: 1 }, StoreReply::Rows(vec![item(1, "a", "b")])),
        response(200, "Item deleted successfully")
    );
}
