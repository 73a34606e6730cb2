use api_tester::decimal::append_decimal;
use api_tester::{plan_dispatch, render_headers, response_time, Header, Method, Request, ServiceError};
use chrono::NaiveDateTime;

fn header(name: &str, value: &str) -> Header {
    Header { name: name.to_string(), value: value.to_string() }
}

fn decimal_text(value: i64) -> String {
    let mut text = String::new();
    append_decimal(&mut text, value);
    text
}

#[test]
fn the_four_methods_are_read_from_their_names() {
    assert_eq!(Method::parse(&"GET".to_string()), Method::Get);
    assert_eq!(Method::parse(&"POST".to_string()), Method::Post);
    assert_eq!(Method::parse(&"PUT".to_string()), Method::Put);
    assert_eq!(Method::parse(&"DELETE".to_string()), Method::Delete);
}

#[test]
fn any_other_text_is_read_as_get() {
    for text in ["PATCH", "HEAD", "OPTIONS", "", "get", "Post", " PUT", "DELETE\n", "GETPOST"] {
        assert_eq!(Method::parse(&text.to_string()), Method::Get);
    }
}

#[test]
fn method_names_round_trip() {
    for method in [Method::Get, Method::Post, Method::Put, Method::Delete] {
        assert_eq!(Method::parse(&method.name()), method);
    }
    assert_eq!(Method::Get.name(), "GET");
    assert_eq!(Method::Post.name(), "POST");
    assert_eq!(Method::Put.name(), "PUT");
    assert_eq!(Method::Delete.name(), "DELETE");
}

#[test]
fn only_post_carries_a_body() {
    assert!(Method::Post.has_body());
    assert!(!Method::Get.has_body());
    assert!(!Method::Put.has_body());
    assert!(!Method::Delete.has_body());
}

#[test]
fn plan_takes_url_and_body_from_the_definition() {
    let plan = plan_dispatch(Request {
        id: 1,
        url: "https://api.test/v1?q=a b".to_string(),
        name: "n".to_string(),
        method: "POST".to_string(),
        headers: String::new(),
        body: Some("payload".to_string()),
        created_at: NaiveDateTime::default(),
    });
    assert_eq!(plan.method, Method::Post);
    assert_eq!(plan.url, "https://api.test/v1?q=a b");
    assert_eq!(plan.body, Some("payload".to_string()));
    assert_eq!(plan.headers, vec![header("Content-Type", "application/json")]);
}

#[test]
fn no_headers_render_as_empty_text() {
    assert_eq!(render_headers(&vec![]), "");
}

#[test]
fn one_header_renders_as_one_line() {
    assert_eq!(
        render_headers(&vec![header("Content-Type", "application/json")]),
        "Content-Type: application/json"
    );
}

#[test]
fn headers_render_in_order_with_line_feeds_between() {
    assert_eq!(
        render_headers(&vec![header("A", "1"), header("B", "2"), header("C", "3")]),
        "A: 1\nB: 2\nC: 3"
    );
    assert_eq!(render_headers(&vec![header("", ""), header("", "")]), ": \n: ");
}

#[test]
fn response_time_keeps_what_fits() {
    assert_eq!(response_time(0), 0);
    assert_eq!(response_time(1), 1);
    assert_eq!(response_time(1_500), 1_500);
    assert_eq!(response_time(4_294_967_296), 4_294_967_296);
    assert_eq!(response_time(i64::MAX as u128), i64::MAX);
}

#[test]
fn response_time_clamps_what_does_not_fit() {
    assert_eq!(response_time(i64::MAX as u128 + 1), i64::MAX);
    assert_eq!(response_time(u64::MAX as u128), i64::MAX);
    assert_eq!(response_time(u128::MAX), i64::MAX);
}

#[test]
fn decimal_of_small_numbers() {
    assert_eq!(decimal_text(0), "0");
    assert_eq!(decimal_text(5), "5");
    assert_eq!(decimal_text(9), "9");
    assert_eq!(decimal_text(10), "10");
    assert_eq!(decimal_text(1234567890), "1234567890");
    assert_eq!(decimal_text(-1), "-1");
    assert_eq!(decimal_text(-10), "-10");
}

#[test]
fn decimal_at_the_ends_of_the_range() {
    assert_eq!(decimal_text(i64::MAX), "9223372036854775807");
    assert_eq!(decimal_text(i64::MIN), "-9223372036854775808");
    assert_eq!(decimal_text(i64::MIN + 1), "-9223372036854775807");
}

#[test]
fn decimal_is_appended_to_what_is_there() {
    let mut text = "id=".to_string();
    append_decimal(&mut text, 305);
    append_decimal(&mut text, -2);
    assert_eq!(text, "id=305-2");
}

#[test]
fn decimal_agrees_with_std() {
    let mut value: i64 = 1;
    while value < i64::MAX / 7 {
        assert_eq!(decimal_text(value), value.to_string());
        assert_eq!(decimal_text(-value), (-value).to_string());
        value = value * 7 + 3;
    }
}

#[test]
fn not_found_message_names_the_id() {
    assert_eq!(ServiceError::NotFound(12).message(), "Request not found: 12");
    assert_eq!(ServiceError::NotFound(-5).message(), "Request not found: -5");
    assert_eq!(ServiceError::NotFound(0).message(), "Request not found: 0");
}

#[test]
fn transport_and_store_messages_are_passed_on_verbatim() {
    assert_eq!(
        ServiceError::Transport("error sending request for url (http://x/)".to_string()).message(),
        "error sending request for url (http://x/)"
    );
    assert_eq!(ServiceError::Store("database is locked".to_string()).message(), "database is locked");
    assert_eq!(ServiceError::Transport(String::new()).message(), "");
}
