//! The auth gateway's decisions: what is sent, and how the provider's
//! answers are classified.

use timebank::auth::{AuthService, Credentials, ProviderResponse};
use timebank::error::ErrorKind;

fn provider_answer(status: u16) -> ProviderResponse {
    ProviderResponse {
        status,
        access_token: String::new(),
        user_id: String::new(),
        error_description: String::new(),
    }
}

#[test]
fn sign_in_with_empty_email_is_rejected_before_any_call() {
    let gateway = AuthService::new();
    let err = gateway
        .sign_in_request(Some(Credentials { email: String::new(), password: "x".to_owned() }))
        .unwrap_err();
    assert_eq!(err.kind, ErrorKind::InvalidArgument);
    assert_eq!(err.message, "Missing email or password");
}

#[test]
fn sign_in_with_empty_password_is_rejected_before_any_call() {
    let gateway = AuthService::new();
    let err = gateway
        .sign_in_request(Some(Credentials { email: "a@b.c".to_owned(), password: String::new() }))
        .unwrap_err();
    assert_eq!(err.kind, ErrorKind::InvalidArgument);
    assert_eq!(err.message, "Missing email or password");
}

#[test]
fn sign_in_without_payload_is_invalid_argument() {
    let gateway = AuthService::new();
    let err = gateway.sign_in_request(None).unwrap_err();
    assert_eq!(err.kind, ErrorKind::InvalidArgument);
    assert_eq!(err.message, "INVALID PAYLOAD");
}

#[test]
fn sign_in_with_both_fields_passes_them_through() {
    let gateway = AuthService::new();
    let creds = gateway
        .sign_in_request(Some(Credentials { email: "a@b.c".to_owned(), password: "pw".to_owned() }))
        .expect("a full payload should pass");
    assert_eq!(creds.email, "a@b.c");
    assert_eq!(creds.password, "pw");
}

#[test]
fn sign_in_success_yields_the_session() {
    let gateway = AuthService::new();
    let session = gateway
        .sign_in_response(ProviderResponse {
            status: 200,
            access_token: "tok-1".to_owned(),
            user_id: "u1".to_owned(),
            error_description: String::new(),
        })
        .expect("a 200 answer grants a session");
    assert_eq!(session.auth_token, "tok-1");
    assert_eq!(session.user_id, "u1");
}

#[test]
fn sign_in_bad_request_carries_the_message_uppercased() {
    let gateway = AuthService::new();
    let err = gateway
        .sign_in_response(ProviderResponse {
            status: 400,
            access_token: String::new(),
            user_id: String::new(),
            error_description: "invalid login credentials".to_owned(),
        })
        .unwrap_err();
    assert_eq!(err.kind, ErrorKind::InvalidArgument);
    assert_eq!(err.message, "INVALID LOGIN CREDENTIALS");
}

#[test]
fn sign_in_other_statuses_are_unknown() {
    let gateway = AuthService::new();
    let err = gateway.sign_in_response(provider_answer(503)).unwrap_err();
    assert_eq!(err.kind, ErrorKind::Unknown);
    assert_eq!(err.message, "AN ERROR HAS OCCURED");
}

#[test]
fn sign_up_without_payload_is_invalid_argument() {
    let gateway = AuthService::new();
    let err = gateway.sign_up_request(None).unwrap_err();
    assert_eq!(err.kind, ErrorKind::InvalidArgument);
}

#[test]
fn sign_up_success_is_empty_confirmation() {
    let gateway = AuthService::new();
    assert!(gateway.sign_up_response(200).is_ok());
}

#[test]
fn sign_up_unprocessable_is_resource_exhausted() {
    let gateway = AuthService::new();
    let err = gateway.sign_up_response(422).unwrap_err();
    assert_eq!(err.kind, ErrorKind::ResourceExhausted);
    assert_eq!(err.message, "INVALID PAYLOAD");
}

#[test]
fn sign_up_rate_limited_is_resource_exhausted() {
    let gateway = AuthService::new();
    let err = gateway.sign_up_response(429).unwrap_err();
    assert_eq!(err.kind, ErrorKind::ResourceExhausted);
    assert_eq!(err.message, "TOO MANY REQUESTS");
}

#[test]
fn sign_up_other_statuses_are_unknown() {
    let gateway = AuthService::new();
    let err = gateway.sign_up_response(500).unwrap_err();
    assert_eq!(err.kind, ErrorKind::Unknown);
}
