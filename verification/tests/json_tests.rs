use rust_simple_crud::handlers::handle_list;
use rust_simple_crud::json::render_subscriptions;
use rust_simple_crud::store::{Subscription, SubscriptionTable};

#[test]
fn empty_table_renders_empty_array() {
    let table = SubscriptionTable::new();
    let r = handle_list(&table);
    assert_eq!(r.status, 200);
    assert!(r.json);
    assert_eq!(r.body, "[]");
}

#[test]
fn known_row_renders_exact_json() {
    let rows = vec![Subscription {
        id: 0,
        email: "a@x.com".to_string(),
        name: "A".to_string(),
        subscribed_at: 0,
    }];
    let body = render_subscriptions(&rows);
    assert_eq!(
        body,
        "[{\"id\":\"00000000-0000-0000-0000-000000000000\",\"email\":\"a@x.com\",\
         \"name\":\"A\",\"subscribed_at\":\"1970-01-01T00:00:00.000000Z\"}]"
    );
}

#[test]
fn id_text_matches_uuid_crate() {
    let id: u128 = 0x0123456789abcdef0123456789abcdef;
    let rows = vec![Subscription {
        id,
        email: "a@x.com".to_string(),
        name: "A".to_string(),
        subscribed_at: 0,
    }];
    let body = render_subscriptions(&rows);
    let expected = uuid::Uuid::from_u128(id).hyphenated().to_string();
    assert!(body.contains(&expected));
    assert!(body.contains("01234567-89ab-cdef-0123-456789abcdef"));
}

#[test]
fn timestamp_text_matches_chrono() {
    let ts: i64 = 1662921288000000;
    let rows = vec![Subscription {
        id: 1,
        email: "a@x.com".to_string(),
        name: "A".to_string(),
        subscribed_at: ts,
    }];
    let body = render_subscriptions(&rows);
    let expected = chrono::DateTime::<chrono::Utc>::from_timestamp_micros(ts)
        .unwrap()
        .to_rfc3339_opts(chrono::SecondsFormat::Micros, true);
    assert!(body.contains(&expected));
}

#[test]
fn rendered_json_parses_and_round_trips_fields() {
    let rows = vec![
        Subscription {
            id: 7,
            email: "first@x.com".to_string(),
            name: "A \"quoted\" name\\with\nnewline\tand\u{1}control".to_string(),
            subscribed_at: 123456789,
        },
        Subscription {
            id: 8,
            email: "second@x.com".to_string(),
            name: "B".to_string(),
            subscribed_at: -1,
        },
    ];
    let body = render_subscriptions(&rows);
    let parsed: serde_json::Value = serde_json::from_str(&body).unwrap();
    let arr = parsed.as_array().unwrap();
    assert_eq!(arr.len(), 2);
    assert_eq!(arr[0]["email"].as_str().unwrap(), "first@x.com");
    assert_eq!(
        arr[0]["name"].as_str().unwrap(),
        "A \"quoted\" name\\with\nnewline\tand\u{1}control"
    );
    assert_eq!(arr[1]["email"].as_str().unwrap(), "second@x.com");
    assert_eq!(
        arr[0]["id"].as_str().unwrap(),
        uuid::Uuid::from_u128(7).hyphenated().to_string()
    );
}

#[test]
fn escaping_is_applied_not_copied() {
    let rows = vec![Subscription {
        id: 2,
        email: "e".to_string(),
        name: "\"\\\n".to_string(),
        subscribed_at: 0,
    }];
    let body = render_subscriptions(&rows);
    assert!(body.contains("\\\"\\\\\\n"));
}
