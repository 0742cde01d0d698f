use rust_simple_crud::routes::{route, Method, Route};

#[test]
fn route_get_root_is_greet() {
    assert_eq!(route(Method::Get, "/"), Some(Route::Greet));
}

#[test]
fn route_get_health_check() {
    assert_eq!(route(Method::Get, "/health-check"), Some(Route::HealthCheck));
}

#[test]
fn route_post_subscription() {
    assert_eq!(route(Method::Post, "/subscription"), Some(Route::Subscribe));
}

#[test]
fn route_get_subscriptions() {
    assert_eq!(
        route(Method::Get, "/get-subscriptions"),
        Some(Route::ListSubscriptions)
    );
}

#[test]
fn route_delete_extracts_email() {
    assert_eq!(
        route(Method::Delete, "/delete-subscriptions/a@x.com"),
        Some(Route::DeleteSubscription {
            email: "a@x.com".to_string()
        })
    );
}

#[test]
fn route_delete_rejects_extra_segment() {
    assert_eq!(route(Method::Delete, "/delete-subscriptions/a@x.com/extra"), None);
}

#[test]
fn route_delete_rejects_empty_email() {
    assert_eq!(route(Method::Delete, "/delete-subscriptions/"), None);
}

#[test]
fn route_method_and_path_must_both_match() {
    assert_eq!(route(Method::Post, "/"), None);
    assert_eq!(route(Method::Get, "/subscription"), None);
    assert_eq!(route(Method::Delete, "/health-check"), None);
    assert_eq!(route(Method::Get, "/nothing-here"), None);
}
