use rust_simple_crud::handlers::{
    greet, handle_delete, handle_list, handle_subscribe, health_check, Response,
};
use rust_simple_crud::routes::{route, Method, Route};
use rust_simple_crud::store::SubscriptionTable;

/// Drives one request through the route table and the matching handler,
/// the way the process around the library does.
fn dispatch(
    table: &mut SubscriptionTable,
    method: Method,
    path: &str,
    form: Option<(&str, &str)>,
) -> Option<Response> {
    match route(method, path)? {
        Route::Greet => Some(greet(None)),
        Route::HealthCheck => Some(health_check()),
        Route::Subscribe => {
            let (email, name) = form.expect("a subscribe carries a form body");
            Some(handle_subscribe(table, email.to_string(), name.to_string()))
        }
        Route::ListSubscriptions => Some(handle_list(table)),
        Route::DeleteSubscription { email } => Some(handle_delete(table, &email)),
    }
}

#[test]
fn subscribe_list_delete_through_routes() {
    let mut table = SubscriptionTable::new();

    let r = dispatch(&mut table, Method::Get, "/", None).unwrap();
    assert_eq!((r.status, r.body.as_str()), (200, "Hello World!"));

    let r = dispatch(&mut table, Method::Get, "/health-check", None).unwrap();
    assert_eq!((r.status, r.body.as_str()), (200, ""));

    let r = dispatch(
        &mut table,
        Method::Post,
        "/subscription",
        Some(("a@x.com", "A")),
    )
    .unwrap();
    assert_eq!((r.status, r.body.as_str()), (200, ""));
    assert_eq!(table.len(), 1);

    let r = dispatch(&mut table, Method::Get, "/get-subscriptions", None).unwrap();
    assert_eq!(r.status, 200);
    assert!(r.json);
    assert!(r.body.contains("\"email\":\"a@x.com\""));
    assert!(r.body.contains("\"name\":\"A\""));

    let r = dispatch(
        &mut table,
        Method::Delete,
        "/delete-subscriptions/a@x.com",
        None,
    )
    .unwrap();
    assert_eq!((r.status, r.body.as_str()), (200, ""));
    assert_eq!(table.len(), 0);

    let r = dispatch(&mut table, Method::Get, "/get-subscriptions", None).unwrap();
    assert_eq!(r.body, "[]");

    assert!(dispatch(&mut table, Method::Get, "/no-such-route", None).is_none());
}
