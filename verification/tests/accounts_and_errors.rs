//! The account directory, the status classification, and the id
//! numerals.

use timebank::account::{GetPayload, GetRatingPayload, UpdatePayload, UserService};
use timebank::error::{
    classify_facade_failure, status_is_success, DatabaseErrorMessage, DatabaseErrorResponse,
    ErrorKind,
};
use timebank::ids::decimal_string;
use timebank::records::{UserPatch, UserProfile};
use timebank::service_request::{CreatePayload, PlaceRatingPayload, ServiceRequestService};
use timebank::store::Store;

fn store_with_user(user_id: &str, profile: &str) -> Store {
    let mut store = Store::new();
    store
        .add_user(UserProfile { user_id: user_id.to_owned(), profile_data: profile.to_owned() })
        .expect("a fresh user id should be taken");
    store
}

fn upstream_body(status: u16) -> DatabaseErrorResponse {
    DatabaseErrorResponse {
        response_status: status,
        error: DatabaseErrorMessage {
            message: "duplicate key value".to_owned(),
            code: "23505".to_owned(),
            details: String::new(),
            hint: String::new(),
        },
    }
}

#[test]
fn get_user_returns_the_profile() {
    let store = store_with_user("u1", "{\"name\":\"ann\"}");
    let user = UserService::new()
        .get(&store, Some(GetPayload { user_id: "u1".to_owned() }))
        .expect("the user exists");
    assert_eq!(user.user_id, "u1");
    assert_eq!(user.profile_data, "{\"name\":\"ann\"}");
}

#[test]
fn get_user_absent_is_not_found() {
    let store = Store::new();
    let err = UserService::new()
        .get(&store, Some(GetPayload { user_id: "u1".to_owned() }))
        .unwrap_err();
    assert_eq!(err.kind, ErrorKind::NotFound);
}

#[test]
fn get_user_empty_id_is_invalid_argument() {
    let store = Store::new();
    let err = UserService::new()
        .get(&store, Some(GetPayload { user_id: String::new() }))
        .unwrap_err();
    assert_eq!(err.kind, ErrorKind::InvalidArgument);
}

#[test]
fn add_user_twice_already_exists() {
    let mut store = store_with_user("u1", "p");
    let err = store
        .add_user(UserProfile { user_id: "u1".to_owned(), profile_data: "q".to_owned() })
        .unwrap_err();
    assert_eq!(err.kind, ErrorKind::AlreadyExists);
}

#[test]
fn update_user_replaces_profile_whole() {
    let mut store = store_with_user("u1", "{\"name\":\"ann\",\"city\":\"x\"}");
    let user = UserService::new()
        .update(
            &mut store,
            Some(UpdatePayload {
                user_id: "u1".to_owned(),
                update: UserPatch { profile_data: Some("{\"name\":\"ann b\"}".to_owned()) },
            }),
        )
        .expect("the user exists");
    assert_eq!(user.profile_data, "{\"name\":\"ann b\"}");
}

#[test]
fn update_user_absent_is_not_found() {
    let mut store = Store::new();
    let err = UserService::new()
        .update(
            &mut store,
            Some(UpdatePayload {
                user_id: "u1".to_owned(),
                update: UserPatch { profile_data: None },
            }),
        )
        .unwrap_err();
    assert_eq!(err.kind, ErrorKind::NotFound);
}

#[test]
fn user_rating_aggregates_rows_naming_the_recipient() {
    let mut store = Store::new();
    let svc = ServiceRequestService::new();
    let req_a = svc
        .create(
            &mut store,
            Some(CreatePayload { requestor: "u1".to_owned(), request_data: "a".to_owned() }),
        )
        .unwrap()
        .id;
    let req_b = svc
        .create(
            &mut store,
            Some(CreatePayload { requestor: "u3".to_owned(), request_data: "b".to_owned() }),
        )
        .unwrap()
        .id;
    svc.place_rating(
        &mut store,
        Some(PlaceRatingPayload {
            request_id: req_a,
            author: "u1".to_owned(),
            recipient: "u2".to_owned(),
            value: 5,
            comment: String::new(),
        }),
    )
    .unwrap();
    svc.place_rating(
        &mut store,
        Some(PlaceRatingPayload {
            request_id: req_b,
            author: "u3".to_owned(),
            recipient: "u2".to_owned(),
            value: 4,
            comment: String::new(),
        }),
    )
    .unwrap();
    let rows = UserService::new()
        .get_rating(&store, Some(GetRatingPayload { user_id: "u2".to_owned() }))
        .unwrap();
    assert_eq!(rows.len(), 2);
    assert_eq!(rows[0].value, 5);
    assert_eq!(rows[1].value, 4);
}

#[test]
fn success_statuses_are_exactly_the_documented_three() {
    assert!(status_is_success(200));
    assert!(status_is_success(201));
    assert!(status_is_success(204));
    assert!(!status_is_success(400));
    assert!(!status_is_success(409));
    assert!(!status_is_success(500));
}

#[test]
fn bad_request_maps_to_invalid_argument() {
    let e = classify_facade_failure(400, upstream_body(400));
    assert_eq!(e.kind, ErrorKind::InvalidArgument);
    assert_eq!(e.message, "INVALID PAYLOAD");
}

#[test]
fn conflict_maps_to_failed_precondition_with_the_body_attached() {
    let e = classify_facade_failure(409, upstream_body(409));
    assert_eq!(e.kind, ErrorKind::FailedPrecondition);
    let body = e.upstream.expect("the raw body rides along");
    assert_eq!(body.response_status, 409);
    assert_eq!(body.error.code, "23505");
}

#[test]
fn quota_statuses_map_to_resource_exhausted() {
    assert_eq!(classify_facade_failure(422, upstream_body(422)).kind, ErrorKind::ResourceExhausted);
    assert_eq!(classify_facade_failure(429, upstream_body(429)).kind, ErrorKind::ResourceExhausted);
}

#[test]
fn anything_else_maps_to_unknown() {
    let e = classify_facade_failure(500, upstream_body(500));
    assert_eq!(e.kind, ErrorKind::Unknown);
    assert_eq!(e.message, "AN ERROR HAS OCCURED");
}

#[test]
fn id_numerals_are_plain_decimal() {
    assert_eq!(decimal_string(0), "0");
    assert_eq!(decimal_string(7), "7");
    assert_eq!(decimal_string(10), "10");
    assert_eq!(decimal_string(90210), "90210");
    assert_eq!(decimal_string(u64::MAX), "18446744073709551615");
}
