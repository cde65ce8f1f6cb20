use headers::{Cookie, HeaderMap, HeaderMapExt, HeaderValue};
use session_auth::errors::{AuthFailure, InfraError, Redirection};
use session_auth::middlewares::{
    check_auth, inject_user_data, inject_user_data_at, session_cookie, GateDecision,
    VerifierAction, VerifierEvent, VerifierState, LOGIN_REDIRECT_PREFIX,
};
use session_auth::models::{UserData, UserModel, UserSessionModel};
use session_auth::session::issue_session;
use session_auth::token::session_token;
use uuid::Uuid;

const HANDLE: &str = "0123abcd-0123-4abc-8def-0123456789ab";
const SECRET: &str = "fedcba98-7654-4321-8fed-cba987654321";
const WRONG: &str = "fedcba98-7654-4321-8fed-cba987654320";

fn cookie(value: &'static str) -> Cookie {
    let mut headers = HeaderMap::new();
    headers.insert("cookie", HeaderValue::from_static(value));
    headers.typed_get::<Cookie>().unwrap()
}

fn owner() -> UserModel {
    UserModel { id: Uuid::from_u128(42), email: "user@example.com".to_string() }
}

fn stored(expires_at: i64) -> UserSessionModel {
    UserSessionModel {
        id: Uuid::from_u128(7),
        user_id: Uuid::from_u128(42),
        session_token_p1: HANDLE.to_string(),
        session_token_p2: SECRET.to_string(),
        created_at: expires_at - 86400,
        expires_at,
    }
}

fn request(token: &str) -> VerifierEvent {
    VerifierEvent::Request { session_token: Some(token.to_string()) }
}

fn awaiting_session(secret: &str) -> VerifierState {
    VerifierState::AwaitingSession { presented_secret: secret.to_string() }
}

fn to_login(location: &str) -> GateDecision {
    GateDecision::RedirectToLogin(Redirection { status: 302, location: location.to_string() })
}

fn anonymous() -> (VerifierState, VerifierAction) {
    (VerifierState::Finished, VerifierAction::Attach(None))
}

#[test]
fn session_cookie_is_read_by_name() {
    assert_eq!(session_cookie(Some(&cookie("session_token=a_b"))), Some("a_b".to_string()));
    assert_eq!(
        session_cookie(Some(&cookie("lang=en-US; session_token=a_b; theme=dark"))),
        Some("a_b".to_string())
    );
}

#[test]
fn session_cookie_may_be_absent() {
    assert_eq!(session_cookie(None), None);
    assert_eq!(session_cookie(Some(&cookie("lang=en-US"))), None);
    assert_eq!(session_cookie(Some(&cookie("session_tokens=a_b"))), None);
    assert_eq!(session_cookie(Some(&cookie("session_token"))), None);
}

#[test]
fn first_session_cookie_wins() {
    assert_eq!(
        session_cookie(Some(&cookie("session_token=first_1; session_token=second_2"))),
        Some("first_1".to_string())
    );
}

#[test]
fn request_without_cookie_is_anonymous() {
    assert_eq!(
        inject_user_data(VerifierState::Start, VerifierEvent::Request { session_token: None }),
        anonymous()
    );
}

#[test]
fn request_with_malformed_token_is_anonymous() {
    assert_eq!(inject_user_data(VerifierState::Start, request("")), anonymous());
    assert_eq!(inject_user_data(VerifierState::Start, request("no-delimiter")), anonymous());
    assert_eq!(inject_user_data(VerifierState::Start, request("a_b_c")), anonymous());
    assert_eq!(inject_user_data(VerifierState::Start, request(HANDLE)), anonymous());
}

#[test]
fn request_with_token_asks_for_the_session() {
    let token = session_token(HANDLE, SECRET);
    assert_eq!(
        inject_user_data(VerifierState::Start, request(&token)),
        (awaiting_session(SECRET), VerifierAction::FindSession(HANDLE.to_string()))
    );
    assert_eq!(
        inject_user_data(VerifierState::Start, request("a_b")),
        (awaiting_session("b"), VerifierAction::FindSession("a".to_string()))
    );
}

#[test]
fn unknown_session_is_anonymous() {
    assert_eq!(
        inject_user_data(
            awaiting_session(SECRET),
            VerifierEvent::SessionFound(Err(InfraError::NotFound))
        ),
        anonymous()
    );
    assert_eq!(
        inject_user_data(
            awaiting_session(SECRET),
            VerifierEvent::SessionFound(Err(InfraError::InternalServerError))
        ),
        anonymous()
    );
}

#[test]
fn matching_secret_asks_for_the_owner() {
    assert_eq!(
        inject_user_data_at(
            awaiting_session(SECRET),
            VerifierEvent::SessionFound(Ok(stored(2000))),
            1999
        ),
        (
            VerifierState::AwaitingUser { user_id: Uuid::from_u128(42) },
            VerifierAction::FindUser(Uuid::from_u128(42))
        )
    );
}

#[test]
fn wrong_secret_is_anonymous() {
    for presented in [WRONG, "", "b", HANDLE] {
        assert_eq!(
            inject_user_data_at(
                awaiting_session(presented),
                VerifierEvent::SessionFound(Ok(stored(2000))),
                1999
            ),
            anonymous()
        );
    }
}

#[test]
fn expired_session_is_anonymous_even_with_the_right_secret() {
    for now in [2000, 2001, 1_000_000] {
        assert_eq!(
            inject_user_data_at(
                awaiting_session(SECRET),
                VerifierEvent::SessionFound(Ok(stored(2000))),
                now
            ),
            anonymous()
        );
    }
}

#[test]
fn clock_decides_expiry() {
    let now = chrono::Utc::now().timestamp();
    assert_eq!(
        inject_user_data(
            awaiting_session(SECRET),
            VerifierEvent::SessionFound(Ok(stored(now - 10)))
        ),
        anonymous()
    );
    assert_eq!(
        inject_user_data(
            awaiting_session(SECRET),
            VerifierEvent::SessionFound(Ok(stored(now + 3600)))
        ),
        (
            VerifierState::AwaitingUser { user_id: Uuid::from_u128(42) },
            VerifierAction::FindUser(Uuid::from_u128(42))
        )
    );
}

#[test]
fn owner_becomes_the_identity() {
    assert_eq!(
        inject_user_data(
            VerifierState::AwaitingUser { user_id: Uuid::from_u128(42) },
            VerifierEvent::UserFound(Ok(owner()))
        ),
        (
            VerifierState::Finished,
            VerifierAction::Attach(Some(UserData {
                user_id: Uuid::from_u128(42),
                user_email: "user@example.com".to_string()
            }))
        )
    );
}

#[test]
fn identity_keeps_the_identifier_of_the_session() {
    let other = UserModel { id: Uuid::from_u128(1), email: "other@example.com".to_string() };
    assert_eq!(
        inject_user_data(
            VerifierState::AwaitingUser { user_id: Uuid::from_u128(42) },
            VerifierEvent::UserFound(Ok(other))
        ),
        (
            VerifierState::Finished,
            VerifierAction::Attach(Some(UserData {
                user_id: Uuid::from_u128(42),
                user_email: "other@example.com".to_string()
            }))
        )
    );
}

#[test]
fn missing_owner_is_anonymous() {
    assert_eq!(
        inject_user_data(
            VerifierState::AwaitingUser { user_id: Uuid::from_u128(42) },
            VerifierEvent::UserFound(Err(InfraError::NotFound))
        ),
        anonymous()
    );
}

#[test]
fn unexpected_events_are_anonymous() {
    assert_eq!(
        inject_user_data(VerifierState::Start, VerifierEvent::UserFound(Ok(owner()))),
        anonymous()
    );
    assert_eq!(
        inject_user_data(VerifierState::Start, VerifierEvent::SessionFound(Ok(stored(i64::MAX)))),
        anonymous()
    );
    assert_eq!(
        inject_user_data(awaiting_session(SECRET), VerifierEvent::UserFound(Ok(owner()))),
        anonymous()
    );
    assert_eq!(
        inject_user_data(awaiting_session(SECRET), request("a_b")),
        anonymous()
    );
    assert_eq!(inject_user_data(VerifierState::Finished, request("a_b")), anonymous());
    assert_eq!(
        inject_user_data(
            VerifierState::AwaitingUser { user_id: Uuid::nil() },
            VerifierEvent::SessionFound(Ok(stored(i64::MAX)))
        ),
        anonymous()
    );
}

#[test]
fn issued_session_round_trip() {
    let user = owner();
    let issued = issue_session(user.id);
    // What the browser sends back is what stands between the cookie's name and its attributes.
    let header = issued.set_cookie.clone();
    let value = header
        .strip_prefix("session_token=")
        .unwrap()
        .strip_suffix("; path=/; httponly; secure; samesite=strict")
        .unwrap()
        .to_string();
    let mut headers = HeaderMap::new();
    headers.insert(
        "cookie",
        HeaderValue::from_str(&format!("session_token={}", value)).unwrap(),
    );
    let sent = headers.typed_get::<Cookie>().unwrap();
    let token = session_cookie(Some(&sent));
    assert_eq!(token, Some(value));

    let (state, action) =
        inject_user_data(VerifierState::Start, VerifierEvent::Request { session_token: token });
    assert_eq!(action, VerifierAction::FindSession(issued.session.session_token_p1.clone()));

    let found = UserSessionModel {
        id: Uuid::from_u128(1234),
        user_id: issued.session.user_id,
        session_token_p1: issued.session.session_token_p1.clone(),
        session_token_p2: issued.session.session_token_p2.clone(),
        created_at: issued.session.created_at,
        expires_at: issued.session.expires_at,
    };
    let (state, action) = inject_user_data(state, VerifierEvent::SessionFound(Ok(found)));
    assert_eq!(action, VerifierAction::FindUser(user.id));

    let (state, action) = inject_user_data(state, VerifierEvent::UserFound(Ok(user.clone())));
    assert_eq!(state, VerifierState::Finished);
    assert_eq!(
        action,
        VerifierAction::Attach(Some(UserData { user_id: user.id, user_email: user.email }))
    );
}

#[test]
fn access_is_granted_to_an_identity() {
    let identity = Some(UserData { user_id: Uuid::nil(), user_email: "a@b.c".to_string() });
    assert_eq!(check_auth(Some(&identity), "/api/auth/profile"), Ok(GateDecision::Proceed));
}

#[test]
fn anonymous_request_is_sent_to_login() {
    assert_eq!(LOGIN_REDIRECT_PREFIX, "/api/auth/login?return_url=");
    assert_eq!(
        check_auth(Some(&None), "/api/auth/profile"),
        Ok(to_login("/api/auth/login?return_url=/api/auth/profile"))
    );
    assert_eq!(
        check_auth(Some(&None), "/"),
        Ok(to_login("/api/auth/login?return_url=/"))
    );
    assert_eq!(
        check_auth(Some(&None), "/api/post/17"),
        Ok(to_login("/api/auth/login?return_url=/api/post/17"))
    );
}

#[test]
fn login_returns_to_the_path_without_the_query() {
    assert_eq!(
        check_auth(Some(&None), "/api/post?published=true"),
        Ok(to_login("/api/auth/login?return_url=/api/post"))
    );
    assert_eq!(
        check_auth(Some(&None), "/api/auth/profile?"),
        Ok(to_login("/api/auth/login?return_url=/api/auth/profile"))
    );
    assert_eq!(
        check_auth(Some(&None), "/a?b=1?c=2"),
        Ok(to_login("/api/auth/login?return_url=/a"))
    );
    assert_eq!(check_auth(Some(&None), "?x"), Ok(to_login("/api/auth/login?return_url=")));
    assert_eq!(check_auth(Some(&None), ""), Ok(to_login("/api/auth/login?return_url=")));
}

#[test]
fn access_check_without_identity_slot_fails() {
    assert_eq!(check_auth(None, "/api/auth/profile"), Err(AuthFailure::IdentityNotAttached));
}

#[test]
fn stale_cookie_on_protected_route_redirects_to_login() {
    let sent = cookie(
        "session_token=0123abcd-0123-4abc-8def-0123456789ab_fedcba98-7654-4321-8fed-cba987654321",
    );
    let token = session_cookie(Some(&sent));
    let (state, action) =
        inject_user_data(VerifierState::Start, VerifierEvent::Request { session_token: token });
    assert_eq!(action, VerifierAction::FindSession(HANDLE.to_string()));
    let yesterday = chrono::Utc::now().timestamp() - 86400;
    let (state, action) =
        inject_user_data(state, VerifierEvent::SessionFound(Ok(stored(yesterday))));
    assert_eq!(state, VerifierState::Finished);
    let attached = match action {
        VerifierAction::Attach(identity) => identity,
        other => panic!("the verifier went on: {:?}", other),
    };
    assert_eq!(attached, None);
    let decision = check_auth(Some(&attached), "/api/auth/profile");
    assert_eq!(decision, Ok(to_login("/api/auth/login?return_url=/api/auth/profile")));
    match decision {
        Ok(GateDecision::RedirectToLogin(redirect)) => assert_eq!(redirect.status, 302),
        other => panic!("no redirect: {:?}", other),
    }
}
