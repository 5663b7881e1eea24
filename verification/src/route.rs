//! The routing table: which handler a method and a path reach.
//!
//! | method | path          | handler     |
//! |--------|---------------|-------------|
//! | GET    | `/items`      | list        |
//! | POST   | `/items`      | create      |
//! | PUT    | `/items`      | update      |
//! | DELETE | `/items/{id}` | delete      |
//!
//! `{id}` is one segment: one character or more, none of them a slash. The
//! path is taken as it stands, without its query.

use vstd::prelude::*;

verus! {

/// The method of a request. `Other` stands for every method that no route
/// takes.
#[derive(Debug, Clone, Copy, PartialEq, Eq, Structural)]
pub enum Method {
    Get,
    Post,
    Put,
    Delete,
    Other,
}

/// A route as contracts see it.
pub ghost enum RouteView {
    GetItems,
    CreateItem,
    UpdateItem,
    DeleteItem { segment: Seq<char> },
    MethodNotAllowed,
    NotFound,
}

/// Where a request goes.
#[derive(Debug, PartialEq, Eq)]
pub enum Route {
    /// To the handler that lists the items.
    GetItems,
    /// To the handler that creates an item from the body.
    CreateItem,
    /// To the handler that updates an item from the body.
    UpdateItem,
    /// To the handler that deletes the item that `segment` names. The
    /// segment is not decoded yet.
    DeleteItem { segment: String },
    /// The path is known, the method is not one it takes.
    MethodNotAllowed,
    /// No route has the path.
    NotFound,
}

impl View for Route {
    type V = RouteView;

    open spec fn view(&self) -> RouteView {
        match self {
            Route::GetItems => RouteView::GetItems,
            Route::CreateItem => RouteView::CreateItem,
            Route::UpdateItem => RouteView::UpdateItem,
            Route::DeleteItem { segment } => RouteView::DeleteItem { segment: segment@ },
            Route::MethodNotAllowed => RouteView::MethodNotAllowed,
            Route::NotFound => RouteView::NotFound,
        }
    }
}

/// The path of the collection.
pub open spec fn collection_path() -> Seq<char> {
    seq!['/', 'i', 't', 'e', 'm', 's']
}

/// The segment that names an item in `path`: what follows `/items/`, where
/// that is not empty and holds no slash. `None` for every other path.
pub open spec fn item_segment(path: Seq<char>) -> Option<Seq<char>> {
    let prefix = collection_path().push('/');
    if path.len() > prefix.len() && path.take(prefix.len() as int) == prefix && !path.skip(
        prefix.len() as int,
    ).contains('/') {
        Some(path.skip(prefix.len() as int))
    } else {
        None
    }
}

/// The route of a method and a path.
pub open spec fn route_of(method: Method, path: Seq<char>) -> RouteView {
    if path == collection_path() {
        match method {
            Method::Get => RouteView::GetItems,
            Method::Post => RouteView::CreateItem,
            Method::Put => RouteView::UpdateItem,
            _ => RouteView::MethodNotAllowed,
        }
    } else {
        match item_segment(path) {
            Some(segment) => match method {
                Method::Delete => RouteView::DeleteItem { segment },
                _ => RouteView::MethodNotAllowed,
            },
            None => RouteView::NotFound,
        }
    }
}

/// Whether `path`, which has `length` characters, begins with `/items`.
fn starts_with_collection(path: &str, length: usize) -> (yes: bool)
    requires
        length == path@.len(),
    ensures
        yes == (path@.len() >= 6 && path@.take(6) == collection_path()),
{
    if length < 6 {
        return false;
    }
    let yes = path.get_char(0) == '/' && path.get_char(1) == 'i' && path.get_char(2) == 't'
        && path.get_char(3) == 'e' && path.get_char(4) == 'm' && path.get_char(5) == 's';
    proof {
        if yes {
            assert(path@.take(6) =~= collection_path());
        }
    }
    yes
}

/// Whether `path`, which has `length` characters, holds a slash at `from`
/// or later.
fn has_slash_from(path: &str, length: usize, from: usize) -> (yes: bool)
    requires
        length == path@.len(),
        from <= length,
    ensures
        yes == path@.skip(from as int).contains('/'),
{
    let mut i: usize = from;
    while i < length
        invariant
            from <= i <= length,
            length == path@.len(),
            forall|j: int| from <= j < i ==> path@[j] != '/',
        decreases length - i,
    {
        if path.get_char(i) == '/' {
            assert(path@.skip(from as int)[i - from] == '/');
            return true;
        }
        i = i + 1;
    }
    proof {
        let rest = path@.skip(from as int);
        if rest.contains('/') {
            let k = choose|k: int| 0 <= k < rest.len() && rest[k] == '/';
            assert(path@[from + k] == '/');
        }
    }
    false
}

/// Finds the handler for `method` and `path`.
///
/// `/items` goes to the list, create or update handler by its method, and to
/// `MethodNotAllowed` with any other. `/items/` and one more segment goes to
/// the delete handler with `DELETE`, and to `MethodNotAllowed` with any other
/// method. Every other path is `NotFound`.
pub fn route(method: Method, path: &str) -> (found: Route)
    ensures
        found@ == route_of(method, path@),
{
    let length = path.unicode_len();
    if !starts_with_collection(path, length) {
        proof {
            let prefix = collection_path().push('/');
            if path@.len() > prefix.len() && path@.take(7) == prefix {
                assert(path@.take(6) =~= prefix.take(6));
                assert(prefix.take(6) =~= collection_path());
            }
            if path@ == collection_path() {
                assert(path@.take(6) =~= path@);
            }
        }
        return Route::NotFound;
    }
    if length == 6 {
        assert(path@.take(6) =~= path@);
        return match method {
            Method::Get => Route::GetItems,
            Method::Post => Route::CreateItem,
            Method::Put => Route::UpdateItem,
            _ => Route::MethodNotAllowed,
        };
    }
    let ghost prefix = collection_path().push('/');
    if path.get_char(6) != '/' || length == 7 {
        proof {
            if path@.len() > 7 && path@.take(7) == prefix {
                assert(path@.take(7)[6] == '/');
            }
        }
        return Route::NotFound;
    }
    assert(path@.take(7) =~= prefix) by {
        assert forall|i: int| 0 <= i < 7 implies path@.take(7)[i] == prefix[i] by {
            if i < 6 {
                assert(path@.take(6)[i] == path@[i]);
            }
        }
    }
    if has_slash_from(path, length, 7) {
        return Route::NotFound;
    }
    let segment = path.substring_char(7, length);
    match method {
        Method::Delete => Route::DeleteItem { segment: String::from_str(segment) },
        _ => Route::MethodNotAllowed,
    }
}

} // verus!
