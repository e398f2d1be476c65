use acyclic::handlers::create_user;
use acyclic::handlers::hello;
use acyclic::handlers::manual_hello;
use acyclic::http::Method;
use acyclic::router::dispatch;
use acyclic::router::handle_request;
use acyclic::router::match_route;
use acyclic::router::str_eq;
use acyclic::router::Route;
use acyclic::state::AppState;

#[test]
fn get_root_greets() {
    let state = AppState::default();
    let r = dispatch(&state, Method::Get, "/", String::new());
    assert_eq!(r.status, 200);
    assert_eq!(r.body, "Hello from Acyclic!");
}

#[test]
fn get_hey_verbatim() {
    let state = AppState::default();
    let r = dispatch(&state, Method::Get, "/hey", String::new());
    assert_eq!(r.status, 200);
    assert_eq!(r.body, "Hey there!");
}

#[test]
fn signup_scenario_alice() {
    let state = AppState::default();
    let r = handle_request(&state, Method::Post, "/signup", b"alice".to_vec());
    assert_eq!(r.status, 200);
    assert_eq!(r.body, "alice");
}

#[test]
fn signup_echoes_any_text() {
    let state = AppState::default();
    let bodies = vec!["", "x", "hello world", "h\u{e9}llo w\u{f6}rld \u{2200}x", "{\"a\":1}"];
    for b in bodies {
        let r = dispatch(&state, Method::Post, "/signup", b.to_string());
        assert_eq!(r.status, 200);
        assert_eq!(r.body, b);
        let raw = handle_request(&state, Method::Post, "/signup", b.as_bytes().to_vec());
        assert_eq!(raw.status, 200);
        assert_eq!(raw.body, b);
    }
}

#[test]
fn signup_rejects_invalid_utf8() {
    let state = AppState::default();
    let r = handle_request(&state, Method::Post, "/signup", vec![0xff, 0xfe, 0x80]);
    assert_eq!(r.status, 400);
    assert_eq!(r.body, "");
}

#[test]
fn signup_rejects_truncated_utf8() {
    let state = AppState::default();
    // The first two bytes of a three-byte encoding, cut short.
    let r = handle_request(&state, Method::Post, "/signup", vec![0xe2, 0x82]);
    assert_eq!(r.status, 400);
}

#[test]
fn unknown_path_not_found() {
    let state = AppState::default();
    let r = dispatch(&state, Method::Get, "/nonexistent", String::new());
    assert_eq!(r.status, 404);
    assert_eq!(r.body, "");
}

#[test]
fn method_mismatch_not_found() {
    let state = AppState::default();
    assert_eq!(dispatch(&state, Method::Post, "/", String::new()).status, 404);
    assert_eq!(dispatch(&state, Method::Get, "/signup", String::new()).status, 404);
    assert_eq!(dispatch(&state, Method::Post, "/hey", String::new()).status, 404);
    assert_eq!(dispatch(&state, Method::Other, "/", String::new()).status, 404);
    let raw = handle_request(&state, Method::Other, "/signup", b"alice".to_vec());
    assert_eq!(raw.status, 404);
}

#[test]
fn greeting_stable_across_requests() {
    let state = AppState::default();
    let first = dispatch(&state, Method::Get, "/", String::new());
    dispatch(&state, Method::Post, "/signup", "drift?".to_string());
    dispatch(&state, Method::Get, "/hey", String::new());
    dispatch(&state, Method::Get, "/missing", String::new());
    handle_request(&state, Method::Post, "/signup", vec![0xff]);
    let again = dispatch(&state, Method::Get, "/", String::new());
    assert_eq!(first.status, again.status);
    assert_eq!(first.body, again.body);
    assert_eq!(again.body, "Hello from Acyclic!");
}

#[test]
fn hundred_roots_each_correct() {
    let state = AppState::default();
    for _ in 0..100 {
        let r = dispatch(&state, Method::Get, "/", String::new());
        assert_eq!(r.status, 200);
        assert_eq!(r.body, "Hello from Acyclic!");
    }
}

#[test]
fn route_table_is_exact() {
    assert_eq!(match_route(Method::Get, "/"), Some(Route::Hello));
    assert_eq!(match_route(Method::Post, "/signup"), Some(Route::CreateUser));
    assert_eq!(match_route(Method::Get, "/hey"), Some(Route::ManualHello));
    assert_eq!(match_route(Method::Get, ""), None);
    assert_eq!(match_route(Method::Get, "/hey/"), None);
    assert_eq!(match_route(Method::Get, "/signup"), None);
    assert_eq!(match_route(Method::Post, "/hey"), None);
    assert_eq!(match_route(Method::Other, "/"), None);
}

#[test]
fn greeting_follows_state_name() {
    let state = AppState::new("Zenith".to_string());
    let r = dispatch(&state, Method::Get, "/", String::new());
    assert_eq!(r.status, 200);
    assert_eq!(r.body, "Hello from Zenith!");
}

#[test]
fn handlers_standalone() {
    let state = AppState::default();
    assert_eq!(hello(&state).body, "Hello from Acyclic!");
    assert_eq!(create_user("bob".to_string()).body, "bob");
    let hey = manual_hello();
    assert_eq!(hey.status, 200);
    assert_eq!(hey.body, "Hey there!");
}

#[test]
fn str_eq_agrees_with_equality() {
    assert!(str_eq("", ""));
    assert!(str_eq("/signup", "/signup"));
    assert!(!str_eq("/signup", "/signu"));
    assert!(!str_eq("/signup", "/signuq"));
    assert!(str_eq("na\u{ef}ve", "na\u{ef}ve"));
    assert!(!str_eq("na\u{ef}ve", "naive"));
}
