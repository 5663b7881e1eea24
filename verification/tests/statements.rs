use items_crud::{ItemData, Param, Statement, UpdatedItemData};

#[test]
fn select_all_has_its_text_and_binds_nothing() {
    let statement = Statement::select_all();
    assert_eq!(statement, Statement::SelectAll);
    assert_eq!(statement.sql(), "SELECT id, name, description FROM items");
    assert_eq!(statement.params(), Vec::<Param>::new());
    assert!(statement.returns_rows());
}

#[test]
fn insert_binds_name_then_description() {
    let data = ItemData { name: "Widget".to_string(), description: "A widget".to_string() };
    let statement = Statement::insert(&data);
    assert_eq!(
        statement,
        Statement::Insert { name: "Widget".to_string(), description: "A widget".to_string() }
    );
    assert_eq!(statement.sql(), "INSERT INTO items (name, description) VALUES ($1, $2)");
    assert_eq!(
        statement.params(),
        vec![Param::Text("Widget".to_string()), Param::Text("A widget".to_string())]
    );
    assert!(!statement.returns_rows());
}

#[test]
fn update_binds_name_description_and_id() {
    let data = UpdatedItemData { id: 7, name: "B".to_string(), description: "b".to_string() };
    let statement = Statement::update(&data);
    assert_eq!(
        statement,
        Statement::Update { id: 7, name: "B".to_string(), description: "b".to_string() }
    );
    assert_eq!(statement.sql(), "UPDATE items SET name = $1, description = $2 WHERE id = $3");
    assert_eq!(
        statement.params(),
        vec![Param::Text("B".to_string()), Param::Text("b".to_string()), Param::Int(7)]
    );
    assert!(!statement.returns_rows());
}

#[test]
fn delete_binds_the_id() {
    let statement = Statement::delete(-3);
    assert_eq!(statement, Statement::Delete { id: -3 });
    assert_eq!(statement.sql(), "DELETE FROM items WHERE id = $1");
    assert_eq!(statement.params(), vec![Param::Int(-3)]);
    assert!(!statement.returns_rows());
}

#[test]
fn values_never_reach_the_text() {
    let hostile = "x'); DROP TABLE items; --";
    let data = ItemData { name: hostile.to_string(), description: "$1".to_string() };
    let statement = Statement::insert(&data);
    assert_eq!(statement.sql(), "INSERT INTO items (name, description) VALUES ($1, $2)");
    assert_eq!(
        statement.params(),
        vec![Param::Text(hostile.to_string()), Param::Text("$1".to_string())]
    );
    let update = Statement::update(&UpdatedItemData {
        id: 1,
        name: hostile.to_string(),
        description: hostile.to_string(),
    });
    assert_eq!(update.sql(), "UPDATE items SET name = $1, description = $2 WHERE id = $3");
}

#[test]
fn empty_fields_are_bound_as_they_are() {
    let data = ItemData { name: String::new(), description: String::new() };
    assert_eq!(
        Statement::insert(&data).params(),
        vec![Param::Text(String::new()), Param::Text(String::new())]
    );
}
