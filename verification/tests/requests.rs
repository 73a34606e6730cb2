use api_tester::{
    created, listed, updated, NewRequest, Request, RequestHistory, RequestUpdate, ServiceError,
};
use chrono::{DateTime, NaiveDateTime};

fn moment(seconds: i64) -> NaiveDateTime {
    DateTime::from_timestamp(seconds, 0).unwrap().naive_utc()
}

fn values(id: i64, created_at: NaiveDateTime) -> Request {
    Request {
        id,
        url: "http://example.test/v2".to_string(),
        name: "renamed".to_string(),
        method: "POST".to_string(),
        headers: "Accept: text/plain".to_string(),
        body: Some("{\"n\":2}".to_string()),
        created_at,
    }
}

fn history_row(id: i64, request_id: i64, created_at: NaiveDateTime) -> RequestHistory {
    RequestHistory {
        id,
        url: "http://example.test/".to_string(),
        request_headers: String::new(),
        request_body: None,
        request_method: "GET".to_string(),
        response_status_code: 200,
        response_time_ms: 3,
        response_body: "ok".to_string(),
        created_at,
        request_id,
    }
}

#[test]
fn new_request_has_the_name_and_defaults_to_get() {
    assert_eq!(
        NewRequest::named("List users"),
        NewRequest {
            name: "List users".to_string(),
            url: String::new(),
            method: "GET".to_string(),
            headers: String::new(),
            body: None,
        }
    );
}

#[test]
fn new_request_accepts_any_name() {
    assert_eq!(NewRequest::named("").name, "");
    assert_eq!(NewRequest::named("").method, "GET");
    assert_eq!(NewRequest::named("Zwölf Boxkämpfer").name, "Zwölf Boxkämpfer");
    assert_eq!(NewRequest::named("same").name, NewRequest::named("same").name);
}

#[test]
fn creation_is_confirmed_with_empty_text() {
    assert_eq!(created(Ok(())), Ok(String::new()));
}

#[test]
fn failed_creation_is_a_store_error() {
    let result = created(Err("UNIQUE constraint failed".to_string()));
    assert_eq!(result, Err(ServiceError::Store("UNIQUE constraint failed".to_string())));
    assert_eq!(result.unwrap_err().message(), "UNIQUE constraint failed");
}

#[test]
fn update_carries_the_five_editable_fields() {
    assert_eq!(
        RequestUpdate::new(3, values(3, moment(10))),
        RequestUpdate {
            request_id: 3,
            url: "http://example.test/v2".to_string(),
            name: "renamed".to_string(),
            method: "POST".to_string(),
            headers: "Accept: text/plain".to_string(),
            body: Some("{\"n\":2}".to_string()),
        }
    );
}

#[test]
fn update_ignores_id_and_creation_time_of_the_values() {
    let addressed = RequestUpdate::new(3, values(3, moment(10)));
    let forged = RequestUpdate::new(3, values(99, moment(999_999)));
    assert_eq!(addressed, forged);
    assert_eq!(forged.request_id, 3);
}

#[test]
fn update_can_clear_the_body() {
    let mut cleared = values(3, moment(10));
    cleared.body = None;
    cleared.url = String::new();
    let update = RequestUpdate::new(3, cleared);
    assert_eq!(update.body, None);
    assert_eq!(update.url, "");
}

#[test]
fn update_keeps_an_unrecognized_method_as_text() {
    let mut odd = values(3, moment(10));
    odd.method = "PATCH".to_string();
    assert_eq!(RequestUpdate::new(3, odd).method, "PATCH");
}

#[test]
fn update_is_confirmed_with_the_id() {
    assert_eq!(updated(42, Ok(1)), Ok("Updated request: 42!".to_string()));
    assert_eq!(updated(0, Ok(1)), Ok("Updated request: 0!".to_string()));
    assert_eq!(updated(7, Ok(1)), Ok("Updated request: 7!".to_string()));
    assert_eq!(updated(10, Ok(1)), Ok("Updated request: 10!".to_string()));
    assert_eq!(updated(1_000_000, Ok(3)), Ok("Updated request: 1000000!".to_string()));
}

#[test]
fn update_confirmation_at_the_ends_of_the_id_range() {
    assert_eq!(updated(i32::MAX, Ok(1)), Ok("Updated request: 2147483647!".to_string()));
    assert_eq!(updated(i32::MIN, Ok(1)), Ok("Updated request: -2147483648!".to_string()));
    assert_eq!(updated(-1, Ok(u64::MAX)), Ok("Updated request: -1!".to_string()));
}

#[test]
fn update_confirmation_matches_std_formatting() {
    for id in [-100_000, -99, -10, -9, 0, 9, 10, 99, 100, 101, 909, 65_536, 123_456_789] {
        assert_eq!(updated(id, Ok(1)), Ok(format!("Updated request: {}!", id)));
    }
}

#[test]
fn update_of_an_unknown_id_is_not_found() {
    let result = updated(42, Ok(0));
    assert_eq!(result, Err(ServiceError::NotFound(42)));
    assert_eq!(result.unwrap_err().message(), "Request not found: 42");
}

#[test]
fn failed_update_is_a_store_error() {
    let result = updated(42, Err("database is locked".to_string()));
    assert_eq!(result, Err(ServiceError::Store("database is locked".to_string())));
}

#[test]
fn history_without_executions_is_an_empty_success() {
    let rows: Vec<RequestHistory> = Vec::new();
    assert_eq!(listed(Ok(rows)), Ok(Vec::new()));
}

#[test]
fn listing_without_requests_is_an_empty_success() {
    let rows: Vec<Request> = Vec::new();
    assert_eq!(listed(Ok(rows)), Ok(Vec::new()));
}

#[test]
fn history_rows_come_back_in_the_order_of_the_store() {
    let newest_first =
        vec![history_row(3, 7, moment(300)), history_row(2, 7, moment(200)), history_row(1, 7, moment(100))];
    let listing = listed(Ok(newest_first)).unwrap();
    assert_eq!(listing.len(), 3);
    let ids: Vec<i64> = listing.iter().map(|row| row.id).collect();
    assert_eq!(ids, vec![3, 2, 1]);
    assert!(listing.windows(2).all(|pair| pair[0].created_at >= pair[1].created_at));
    assert!(listing.iter().all(|row| row.request_id == 7));
}

#[test]
fn request_rows_come_back_unchanged() {
    let rows = vec![values(2, moment(20)), values(1, moment(10))];
    let listing = listed(Ok(rows)).unwrap();
    assert_eq!(listing, vec![values(2, moment(20)), values(1, moment(10))]);
}

#[test]
fn failed_listing_is_a_store_error() {
    let outcome: Result<Vec<RequestHistory>, String> = Err("no such table".to_string());
    assert_eq!(listed(outcome), Err(ServiceError::Store("no such table".to_string())));
}
