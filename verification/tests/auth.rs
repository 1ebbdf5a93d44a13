use std::cell::Cell;

use session_gateway::auth::{
    auth_middleware, authorize, login, login_request, logout, user, AuthorizationResult, Gate,
    LoginRequest, Rejection, User,
};
use session_gateway::directory::{bind, BindError, BindOutcome, Directory};
use session_gateway::errors::{AuthError, ConnectionError};
use session_gateway::session::{Session, SessionStore, Token};

fn store() -> SessionStore {
    SessionStore::new((0u8..64).collect()).unwrap()
}

fn details(username: &str, password: &str) -> LoginRequest {
    LoginRequest { username: username.to_string(), password: password.to_string() }
}

fn accepted() -> Result<BindOutcome, ConnectionError> {
    Ok(BindOutcome { rc: 0, matched: String::new() })
}

fn rejected(rc: u32) -> Result<BindOutcome, ConnectionError> {
    Ok(BindOutcome { rc, matched: String::new() })
}

fn token_of(subject: &str) -> Token {
    store().issue(&Session::new(subject.to_string()).unwrap())
}

#[test]
fn local_directory_is_the_one_on_this_machine() {
    let directory = Directory::local();
    assert_eq!(directory.url, "ldap://localhost:3890");
    assert_eq!(directory.base_dn, "ou=people,dc=omaralkersh,dc=com");
    assert_eq!(directory.timeout_secs, 5);
}

#[test]
fn bind_request_names_the_user_under_the_base() {
    let request = Directory::local().bind_request("alice", "secret").unwrap();
    assert!(request == request.clone());
    assert_eq!(request.url, "ldap://localhost:3890");
    assert_eq!(request.dn, "uid=alice,ou=people,dc=omaralkersh,dc=com");
    assert_eq!(request.password, "secret");
    assert_eq!(request.timeout_secs, 5);
}

#[test]
fn bind_request_follows_the_directory() {
    let directory = Directory {
        url: "ldap://ldap.example.org".to_string(),
        base_dn: "dc=example,dc=org".to_string(),
        timeout_secs: 2,
    };
    let request = directory.bind_request("søren", "pw").unwrap();
    assert_eq!(request.url, "ldap://ldap.example.org");
    assert_eq!(request.dn, "uid=søren,dc=example,dc=org");
    assert_eq!(request.timeout_secs, 2);
}

#[test]
fn bind_request_needs_both_credentials() {
    let directory = Directory::local();
    assert!(directory.bind_request("", "secret").is_none());
    assert!(directory.bind_request("alice", "").is_none());
    assert!(directory.bind_request("", "").is_none());
}

#[test]
fn bind_reads_the_result_code() {
    assert_eq!(bind(accepted()), accepted().map_err(|_| BindError::ConnectionError));
    assert_eq!(bind(rejected(49)), Err(BindError::BindRejected { rc: 49 }));
    assert_eq!(bind(rejected(1)), Err(BindError::BindRejected { rc: 1 }));
    assert_eq!(bind(Err(ConnectionError)), Err(BindError::ConnectionError));
    assert!(BindOutcome { rc: 0, matched: "uid=alice".to_string() }.accepted());
    assert!(!BindOutcome { rc: 32, matched: String::new() }.accepted());
}

#[test]
fn login_request_turns_empty_credentials_down() {
    let directory = Directory::local();
    assert_eq!(login_request(&directory, &details("", "secret")).err(), Some(AuthError::Unauthorized));
    assert_eq!(login_request(&directory, &details("alice", "")).err(), Some(AuthError::Unauthorized));
    let request = login_request(&directory, &details("alice", "secret")).ok().unwrap();
    assert_eq!(request.dn, "uid=alice,ou=people,dc=omaralkersh,dc=com");
    assert_eq!(request.password, "secret");
}

#[test]
fn login_with_accepted_bind_yields_a_token_for_the_username() {
    let store = store();
    let token = login(&store, &details("alice", "secret"), accepted()).unwrap();
    assert_eq!(token.as_str(), "bu+tK+2Xttk+5mPWekS0YBaz153K1UraObYaHRSHTRs=alice");
    assert_eq!(store.verify(&token).unwrap().subject(), "alice");
    assert_eq!(user(&store, Some(&token)), Ok(User("alice".to_string())));
}

#[test]
fn login_with_rejected_bind_is_unauthorized() {
    let store = store();
    assert_eq!(login(&store, &details("alice", "wrong"), rejected(49)), Err(AuthError::Unauthorized));
    assert_eq!(login(&store, &details("nobody", "x"), rejected(32)), Err(AuthError::Unauthorized));
}

#[test]
fn login_without_directory_is_service_unavailable() {
    let store = store();
    assert_eq!(
        login(&store, &details("alice", "secret"), Err(ConnectionError)),
        Err(AuthError::ServiceUnavailable)
    );
}

#[test]
fn login_with_empty_credentials_is_unauthorized_whatever_the_directory_says() {
    let store = store();
    assert_eq!(login(&store, &details("", "secret"), accepted()), Err(AuthError::Unauthorized));
    assert_eq!(login(&store, &details("alice", ""), accepted()), Err(AuthError::Unauthorized));
    assert_eq!(login(&store, &details("", ""), Err(ConnectionError)), Err(AuthError::Unauthorized));
}

#[test]
fn logins_of_two_users_do_not_interfere() {
    let store = store();
    let first = login(&store, &details("alice", "a"), accepted()).unwrap();
    let second = login(&store, &details("bob", "b"), accepted()).unwrap();
    let first_again = login(&store, &details("alice", "a"), accepted()).unwrap();
    assert_ne!(first, second);
    assert_eq!(first, first_again);
    assert_eq!(store.verify(&first).unwrap().subject(), "alice");
    assert_eq!(store.verify(&second).unwrap().subject(), "bob");
    assert!(matches!(login(&store, &details("carol", "c"), rejected(49)), Err(AuthError::Unauthorized)));
    assert_eq!(store.verify(&first).unwrap().subject(), "alice");
}

#[test]
fn logout_clears_the_credential() {
    assert_eq!(logout(Some(token_of("alice"))), None);
    assert_eq!(logout(None), None);
    assert_eq!(logout(logout(Some(token_of("alice")))), None);
}

#[test]
fn authorize_without_credential_is_unauthorized() {
    assert_eq!(authorize(&store(), None), AuthorizationResult::Unauthorized);
}

#[test]
fn authorize_with_valid_credential_gives_the_subject() {
    let token = token_of("alice");
    assert_eq!(authorize(&store(), Some(&token)), AuthorizationResult::Authorized("alice".to_string()));
}

#[test]
fn authorize_treats_a_bad_token_like_none() {
    let tampered = Token::new("cu+tK+2Xttk+5mPWekS0YBaz153K1UraObYaHRSHTRs=alice".to_string());
    assert_eq!(authorize(&store(), Some(&tampered)), AuthorizationResult::Unauthorized);
    assert_eq!(authorize(&store(), Some(&Token::new(String::new()))), AuthorizationResult::Unauthorized);
}

#[test]
fn user_without_session_is_unauthorized() {
    assert_eq!(user(&store(), None), Err(AuthError::Unauthorized));
    let foreign = Token::new("BveAdrcVfsuu31FSyZ5p2s34Nle+KjFep7kiUd8ExkQ=alice".to_string());
    assert_eq!(user(&store(), Some(&foreign)), Err(AuthError::Unauthorized));
}

#[test]
fn rejection_is_401_not_logged_in() {
    assert_eq!(
        Rejection::not_logged_in(),
        Rejection { status: 401, body: "not logged in".to_string() }
    );
}

#[test]
fn middleware_rejects_without_calling_the_handler() {
    let called = Cell::new(false);
    let out = auth_middleware(&store(), None, "GET /s3/list_objects", |_req: &str| {
        called.set(true);
        200u16
    });
    assert_eq!(out, Gate::Rejected(Rejection { status: 401, body: "not logged in".to_string() }));
    assert!(!called.get());
}

#[test]
fn middleware_rejects_a_bad_token_without_calling_the_handler() {
    let called = Cell::new(0u32);
    let tampered = Token::new("bu+tK+2Xttk+5mPWekS0YBaz153K1UraObYaHRSHTRs=mallory".to_string());
    let out = auth_middleware(&store(), Some(&tampered), (), |_req: ()| {
        called.set(called.get() + 1);
        "downstream".to_string()
    });
    assert_eq!(out, Gate::Rejected(Rejection { status: 401, body: "not logged in".to_string() }));
    assert_eq!(called.get(), 0);
}

#[test]
fn middleware_forwards_request_and_response_unchanged() {
    let called = Cell::new(0u32);
    let token = token_of("alice");
    let out = auth_middleware(&store(), Some(&token), vec![1u8, 2, 3], |req: Vec<u8>| {
        called.set(called.get() + 1);
        (req, "body of any type")
    });
    assert_eq!(out, Gate::Forwarded((vec![1u8, 2, 3], "body of any type")));
    assert_eq!(called.get(), 1);
}
