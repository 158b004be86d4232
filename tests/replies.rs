use std::sync::atomic::Ordering;

use web_handlers::decimal::push_decimal;
use web_handlers::decimal::push_signed_decimal;
use web_handlers::extractors::path_extractor;
use web_handlers::extractors::welcome_extractor;
use web_handlers::shared_states::add_one_to_another_app_state;
use web_handlers::shared_states::add_reply_text;
use web_handlers::shared_states::index;
use web_handlers::shared_states::mutable_counter;
use web_handlers::shared_states::AnotherAppState;
use web_handlers::shared_states::AppState;
use web_handlers::shared_states::MutableState;
use web_handlers::todo::NewTodo;
use web_handlers::todo::Todo;

fn decimal_of(n: u64) -> String {
    let mut s = String::new();
    push_decimal(&mut s, n);
    s
}

fn signed_decimal_of(i: i64) -> String {
    let mut s = String::new();
    push_signed_decimal(&mut s, i);
    s
}

#[test]
fn decimal_zero_and_extremes() {
    assert_eq!(decimal_of(0), "0");
    assert_eq!(decimal_of(7), "7");
    assert_eq!(decimal_of(10), "10");
    assert_eq!(decimal_of(4096), "4096");
    assert_eq!(decimal_of(u64::MAX), "18446744073709551615");
}

#[test]
fn signed_decimal_signs() {
    assert_eq!(signed_decimal_of(0), "0");
    assert_eq!(signed_decimal_of(-5), "-5");
    assert_eq!(signed_decimal_of(1234), "1234");
    assert_eq!(signed_decimal_of(i64::MIN), "-9223372036854775808");
    assert_eq!(signed_decimal_of(i64::MAX), "9223372036854775807");
}

#[test]
fn decimal_appends_to_existing_text() {
    let mut s = String::from("n=");
    push_decimal(&mut s, 305);
    assert_eq!(s, "n=305");
}

#[test]
fn index_greets_app_name() {
    let state = AppState::new(String::from("Actix Web"));
    assert_eq!(index(&state), "Hello Actix Web!");
}

#[test]
fn index_is_unchanged_by_other_requests() {
    let state = AppState::new(String::from("Actix Web"));
    let mut counter = MutableState::new();
    let mut workers = AnotherAppState::new();
    for _ in 0..5 {
        assert_eq!(index(&state), "Hello Actix Web!");
        mutable_counter(&mut counter);
        add_one_to_another_app_state(&mut workers);
    }
    assert_eq!(index(&state), "Hello Actix Web!");
    assert_eq!(state.app_name, "Actix Web");
}

#[test]
fn counter_nth_request_reports_n() {
    let mut state = MutableState::new();
    for n in 1..=100 {
        let reply = mutable_counter(&mut state);
        assert_eq!(reply, format!("Request number: {}", n));
        assert_eq!(state.counter, n);
    }
}

#[test]
fn counter_first_request() {
    let mut state = MutableState::new();
    assert_eq!(state.counter, 0);
    assert_eq!(mutable_counter(&mut state), "Request number: 1");
}

#[test]
fn counter_just_below_limit() {
    let mut state = MutableState { counter: i32::MAX - 1 };
    assert_eq!(mutable_counter(&mut state), "Request number: 2147483647");
    assert_eq!(state.counter, i32::MAX);
}

#[test]
fn counter_from_negative_value() {
    let mut state = MutableState { counter: -3 };
    assert_eq!(mutable_counter(&mut state), "Request number: -2");
}

#[test]
fn add_reply_format() {
    assert_eq!(add_reply_text(12, 3), "global_count: 12\nworker_local_count: 3");
    assert_eq!(add_reply_text(0, 0), "global_count: 0\nworker_local_count: 0");
}

#[test]
fn add_on_single_worker() {
    let mut state = AnotherAppState::new();
    assert_eq!(
        add_one_to_another_app_state(&mut state),
        "global_count: 1\nworker_local_count: 1"
    );
    assert_eq!(
        add_one_to_another_app_state(&mut state),
        "global_count: 2\nworker_local_count: 2"
    );
    assert_eq!(state.worker_local_count, 2);
}

#[test]
fn add_clones_share_global_count_only() {
    let origin = AnotherAppState::new();
    let mut workers = vec![origin.clone(), origin.clone(), origin.clone()];
    let served_by = [0usize, 1, 1, 2, 1, 0, 1];
    let mut last = String::new();
    for &w in served_by.iter() {
        last = add_one_to_another_app_state(&mut workers[w]);
    }
    assert_eq!(last, "global_count: 7\nworker_local_count: 4");
    assert_eq!(workers[0].worker_local_count, 2);
    assert_eq!(workers[1].worker_local_count, 4);
    assert_eq!(workers[2].worker_local_count, 1);
    let sum: usize = workers.iter().map(|w| w.worker_local_count).sum();
    assert_eq!(sum, served_by.len());
    assert_eq!(origin.global_count.load(Ordering::Relaxed), 7);
    assert_eq!(origin.worker_local_count, 0);
}

#[test]
fn path_reply() {
    assert_eq!(path_extractor(42, "hello"), "User_id: 42, info: hello.");
    assert_eq!(path_extractor(0, ""), "User_id: 0, info: .");
    assert_eq!(path_extractor(u32::MAX, "x y"), "User_id: 4294967295, info: x y.");
}

#[test]
fn welcome_reply() {
    assert_eq!(welcome_extractor(7, "alice"), "Welcome 7: alice!");
    assert_eq!(welcome_extractor(0, ""), "Welcome 0: !");
}

#[test]
fn new_todo_holds_its_fields() {
    let t = NewTodo::new("t", "d");
    assert_eq!(t.title, "t");
    assert_eq!(t.description, "d");
    let stored = Todo { id: 1, title: String::from(t.title), description: String::from(t.description) };
    assert_eq!(stored.title, "t");
    assert_eq!(stored.id, 1);
}
