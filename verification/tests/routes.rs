use items_crud::{route, Method, Route};

fn delete_of(segment: &str) -> Route {
    Route::DeleteItem { segment: segment.to_string() }
}

#[test]
fn the_collection_takes_get_post_and_put() {
    assert_eq!(route(Method::Get, "/items"), Route::GetItems);
    assert_eq!(route(Method::Post, "/items"), Route::CreateItem);
    assert_eq!(route(Method::Put, "/items"), Route::UpdateItem);
}

#[test]
fn the_collection_takes_no_other_method() {
    assert_eq!(route(Method::Delete, "/items"), Route::MethodNotAllowed);
    assert_eq!(route(Method::Other, "/items"), Route::MethodNotAllowed);
}

#[test]
fn an_item_takes_delete() {
    assert_eq!(route(Method::Delete, "/items/5"), delete_of("5"));
    assert_eq!(route(Method::Delete, "/items/99999"), delete_of("99999"));
}

#[test]
fn an_item_takes_no_other_method() {
    assert_eq!(route(Method::Get, "/items/5"), Route::MethodNotAllowed);
    assert_eq!(route(Method::Post, "/items/5"), Route::MethodNotAllowed);
    assert_eq!(route(Method::Put, "/items/5"), Route::MethodNotAllowed);
    assert_eq!(route(Method::Other, "/items/5"), Route::MethodNotAllowed);
}

#[test]
fn the_segment_is_handed_on_undecoded() {
    assert_eq!(route(Method::Delete, "/items/abc"), delete_of("abc"));
    assert_eq!(route(Method::Delete, "/items/-1"), delete_of("-1"));
    assert_eq!(route(Method::Delete, "/items/ 7"), delete_of(" 7"));
    assert_eq!(route(Method::Delete, "/items/caf\u{00e9}"), delete_of("caf\u{00e9}"));
}

#[test]
fn other_paths_are_not_found() {
    for path in ["", "/", "/item", "/items/", "/itemsx", "/items/1/", "/items/1/2", "/items//",
        "items", "/Items", "/other", "/items?x=1", "/\u{00e9}tems", "/item\u{00e9}/1"]
    {
        for method in [Method::Get, Method::Post, Method::Put, Method::Delete, Method::Other] {
            assert_eq!(route(method, path), Route::NotFound, "for {:?}", path);
        }
    }
}
