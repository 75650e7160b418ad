use aidungeon_client::client::AIDungeon;
use aidungeon_client::error::AIDungeonError;
use aidungeon_client::protocol::{HttpOutcome, Method};
use aidungeon_client::types::User;

fn user(token: &str) -> User {
    User { access_token: token.to_string() }
}

#[test]
fn register_email_conflict_halts_after_one_request() {
    let existence: HttpOutcome<User> =
        HttpOutcome::Response { status: 406, body: Err(String::new()) };
    let completion: HttpOutcome<()> = HttpOutcome::Response { status: 200, body: Ok(()) };
    let (result, requests) = AIDungeon::register("a@b.com", "user", "pw", existence, completion);
    assert_eq!(result, Err(AIDungeonError::EmailAlreadyExists));
    assert_eq!(requests.len(), 1);
    assert_eq!(requests[0].method, Method::Post);
    assert_eq!(requests[0].url, "https://api.aidungeon.io/users");
    assert_eq!(requests[0].token, None);
    assert_eq!(requests[0].body.as_deref(), Some(br#"{"email":"a@b.com"}"#.as_slice()));
}

#[test]
fn register_username_conflict() {
    let existence = HttpOutcome::Response { status: 200, body: Ok(user("tok")) };
    let completion: HttpOutcome<()> = HttpOutcome::Response { status: 400, body: Ok(()) };
    let (result, requests) = AIDungeon::register("a@b.com", "user", "pw", existence, completion);
    assert_eq!(result, Err(AIDungeonError::UsernameAlreadyExists));
    assert_eq!(requests.len(), 2);
    assert_eq!(requests[1].method, Method::Patch);
    assert_eq!(requests[1].url, "https://api.aidungeon.io/users/@me");
    assert_eq!(requests[1].token.as_deref(), Some("tok"));
    assert_eq!(
        requests[1].body.as_deref(),
        Some(br#"{"username":"user","password":"pw"}"#.as_slice())
    );
}

#[test]
fn register_success_yields_idle_handle() {
    let existence = HttpOutcome::Response { status: 200, body: Ok(user("tok")) };
    let completion: HttpOutcome<()> = HttpOutcome::Response { status: 200, body: Ok(()) };
    let (result, requests) = AIDungeon::register("a@b.com", "user", "pw", existence, completion);
    let handle = result.expect("registration should succeed");
    assert_eq!(handle.access_token, "tok");
    assert_eq!(handle.story_id, None);
    assert_eq!(requests.len(), 2);
}

#[test]
fn register_unexpected_status_reports_code() {
    let existence: HttpOutcome<User> =
        HttpOutcome::Response { status: 503, body: Err(String::new()) };
    let completion: HttpOutcome<()> = HttpOutcome::Response { status: 200, body: Ok(()) };
    let (result, requests) = AIDungeon::register("a@b.com", "user", "pw", existence, completion);
    assert_eq!(requests.len(), 1);
    match result {
        Err(AIDungeonError::UnexpectedError { message }) => {
            assert!(message.contains("503"), "message lacks status code: {message}");
            assert_eq!(
                message,
                "Bad request status code while checking whether user account exists: 503"
            );
        }
        other => panic!("expected an unexpected-status error, got {other:?}"),
    }
}

#[test]
fn register_completion_unexpected_status_reports_code() {
    let existence = HttpOutcome::Response { status: 200, body: Ok(user("tok")) };
    let completion: HttpOutcome<()> = HttpOutcome::Response { status: 418, body: Ok(()) };
    let (result, _) = AIDungeon::register("a@b.com", "user", "pw", existence, completion);
    match result {
        Err(AIDungeonError::UnexpectedError { message }) => {
            assert_eq!(message, "Bad request status code while trying to register user: 418");
        }
        other => panic!("expected an unexpected-status error, got {other:?}"),
    }
}

#[test]
fn register_transport_failure_is_wrapped() {
    let existence: HttpOutcome<User> = HttpOutcome::Failed { message: "connection refused".into() };
    let completion: HttpOutcome<()> = HttpOutcome::Response { status: 200, body: Ok(()) };
    let (result, requests) = AIDungeon::register("a@b.com", "user", "pw", existence, completion);
    assert_eq!(result, Err(AIDungeonError::RequestFailed { message: "connection refused".into() }));
    assert_eq!(requests.len(), 1);
}

#[test]
fn register_decode_failure_is_wrapped() {
    let existence: HttpOutcome<User> =
        HttpOutcome::Response { status: 200, body: Err("bad json".into()) };
    let completion: HttpOutcome<()> = HttpOutcome::Response { status: 200, body: Ok(()) };
    let (result, _) = AIDungeon::register("a@b.com", "user", "pw", existence, completion);
    assert_eq!(
        result,
        Err(AIDungeonError::InvalidResponseFromServer { message: "bad json".into() })
    );
}

#[test]
fn login_success_binds_token_and_no_session() {
    let outcome = HttpOutcome::Response { status: 200, body: Ok(user("tok123")) };
    let (result, requests) = AIDungeon::login("a@b.com", "secret", outcome);
    let handle = result.expect("login should succeed");
    assert_eq!(handle.access_token, "tok123");
    assert_eq!(handle.story_id, None);
    assert_eq!(requests.len(), 1);
    assert_eq!(requests[0].method, Method::Post);
    assert_eq!(requests[0].url, "https://api.aidungeon.io/users");
    assert_eq!(requests[0].token, None);
    assert_eq!(
        requests[0].body.as_deref(),
        Some(br#"{"email":"a@b.com","password":"secret"}"#.as_slice())
    );
}

#[test]
fn login_unexpected_status_reports_code() {
    let outcome: HttpOutcome<User> = HttpOutcome::Response { status: 401, body: Err(String::new()) };
    let (result, _) = AIDungeon::login("a@b.com", "secret", outcome);
    match result {
        Err(AIDungeonError::UnexpectedError { message }) => {
            assert_eq!(message, "Bad request status code while trying to log in: 401");
        }
        other => panic!("expected an unexpected-status error, got {other:?}"),
    }
}

#[test]
fn token_that_cannot_be_a_header_value_is_rejected() {
    let result = AIDungeon::authenticate(user("tok\nwith newline"));
    assert_eq!(
        result,
        Err(AIDungeonError::UnexpectedError {
            message: "Bad access token received from server".into()
        })
    );
}

#[test]
fn ordinary_token_is_accepted() {
    let handle = AIDungeon::authenticate(user("abc-DEF_123")).expect("token should bind");
    assert_eq!(handle.access_token, "abc-DEF_123");
    assert_eq!(handle.story_id, None);
}
