use algolia::routes::IndexRoute;
use algolia::routes::IndexRouteKind;
use algolia::routes::ObjectRoute;
use algolia::routes::TaskRoute;
use algolia::task::TaskId;

#[test]
fn index_routes() {
    let query = IndexRoute {
        index_name: "products",
        kind: Some(IndexRouteKind::Query),
    };
    assert_eq!(query.to_path(), "indexes/products/query");
    let settings = IndexRoute {
        index_name: "products",
        kind: Some(IndexRouteKind::Settings),
    };
    assert_eq!(settings.to_path(), "indexes/products/settings");
    let batch = IndexRoute {
        index_name: "products",
        kind: Some(IndexRouteKind::Batch),
    };
    assert_eq!(batch.to_path(), "indexes/products/batch");
    let bare = IndexRoute {
        index_name: "products",
        kind: None,
    };
    assert_eq!(bare.to_path(), "indexes/products");
}

#[test]
fn object_routes() {
    let put = ObjectRoute {
        index_name: "products",
        object_id: "object-1",
        partial: false,
    };
    assert_eq!(put.to_path(), "indexes/products/object-1");
    let partial = ObjectRoute {
        index_name: "products",
        object_id: "object-1",
        partial: true,
    };
    assert_eq!(partial.to_path(), "indexes/products/object-1/partial");
}

#[test]
fn task_routes() {
    let route = TaskRoute {
        index_name: "products",
        task_id: TaskId(42),
    };
    assert_eq!(route.to_path(), "indexes/products/task/42");
}
