use rust_simple_crud::handlers::{greet, health_check, write_outcome};

#[test]
fn health_check_repeated_is_200_empty() {
    for _ in 0..5 {
        let r = health_check();
        assert_eq!(r.status, 200);
        assert_eq!(r.body, "");
        assert!(!r.json);
    }
}

#[test]
fn greet_default_hello_world() {
    let r = greet(None);
    assert_eq!(r.status, 200);
    assert_eq!(r.body, "Hello World!");
}

#[test]
fn greet_with_name() {
    let r = greet(Some("Ada"));
    assert_eq!(r.status, 200);
    assert_eq!(r.body, "Hello Ada!");
}

#[test]
fn write_outcome_maps_storage_result() {
    let ok = write_outcome(true);
    assert_eq!(ok.status, 200);
    assert_eq!(ok.body, "");
    let err = write_outcome(false);
    assert_eq!(err.status, 500);
    assert_eq!(err.body, "");
}
