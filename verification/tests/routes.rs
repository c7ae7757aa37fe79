use rustiful::router::{HttpMethod, RouteKind, DEFAULT_MAX_BODY_LENGTH};
use rustiful::JsonApiRouterBuilder;

#[test]
fn routes_are_planned_by_operation() {
    let mut b = JsonApiRouterBuilder::default();
    assert_eq!(b.max_body_length(), 10 * 1024 * 1024);
    assert_eq!(DEFAULT_MAX_BODY_LENGTH, 10 * 1024 * 1024);
    let get = b.jsonapi_get("todos");
    let index = b.jsonapi_index("todos");
    let post = b.jsonapi_post("todos");
    let patch = b.jsonapi_patch("todos");
    let delete = b.jsonapi_delete("todos");
    assert_eq!((get.method, get.path.as_str(), get.name.as_str()), (HttpMethod::Get, "/todos/:id", "get_todos"));
    assert_eq!((index.method, index.path.as_str(), index.name.as_str()), (HttpMethod::Get, "/todos", "index_todos"));
    assert_eq!((post.method, post.path.as_str(), post.name.as_str()), (HttpMethod::Post, "/todos", "create_todos"));
    assert_eq!((patch.method, patch.path.as_str(), patch.name.as_str()), (HttpMethod::Patch, "/todos/:id", "update_todos"));
    assert_eq!((delete.method, delete.path.as_str(), delete.name.as_str()), (HttpMethod::Delete, "/todos/:id", "delete_todos"));
    let kinds: Vec<RouteKind> = b.routes().iter().map(|r| r.kind).collect();
    assert_eq!(kinds, vec![RouteKind::Get, RouteKind::Index, RouteKind::Post, RouteKind::Patch, RouteKind::Delete]);
}

#[test]
fn max_body_length_reads_back_what_was_set() {
    let mut b = JsonApiRouterBuilder::new(10);
    assert_eq!(b.max_body_length(), 10);
    b.set_max_body_length(2048);
    assert_eq!(b.max_body_length(), 2048);
    assert!(b.routes().is_empty());
}
