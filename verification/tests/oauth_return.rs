use session_auth::errors::{
    AuthError, AuthFailure, ErrorClass, ExchangeFault, FetchFault, InfraError, Redirection,
};
use session_auth::models::{CallbackParams, ProviderCredentials};
use session_auth::oauth_return::{oauth_return, CallbackAction, CallbackEvent, CallbackState};
use session_auth::provider::get_client;
use session_auth::repositories::{NewUserDb, NewUserSessionDb, UserDb};
use uuid::Uuid;

const VERIFIER: &str = "0123456789abcdefghijklmnopqrstuvwxyzABCDEFG";

fn credentials() -> ProviderCredentials {
    ProviderCredentials {
        client_id: Some("my-client".to_string()),
        client_secret: Some("my-secret".to_string()),
    }
}

fn callback(state: Option<&str>, code: Option<&str>) -> CallbackEvent {
    CallbackEvent::Request {
        params: CallbackParams {
            state: state.map(str::to_string),
            code: code.map(str::to_string),
        },
        hostname: "example.com".to_string(),
    }
}

fn awaiting_consume() -> CallbackState {
    CallbackState::AwaitingConsume { code: "the-code".to_string(), hostname: "example.com".to_string() }
}

fn awaiting_credentials() -> CallbackState {
    CallbackState::AwaitingCredentials {
        code: "the-code".to_string(),
        hostname: "example.com".to_string(),
        pkce_code_verifier: VERIFIER.to_string(),
        return_url: "/api/auth/profile".to_string(),
    }
}

fn awaiting_user_info() -> CallbackState {
    CallbackState::AwaitingUserInfo { return_url: "/api/auth/profile".to_string() }
}

fn awaiting_user_lookup() -> CallbackState {
    CallbackState::AwaitingUserLookup {
        email: "new@example.com".to_string(),
        return_url: "/api/auth/profile".to_string(),
    }
}

fn failed(failure: AuthFailure) -> (CallbackState, CallbackAction) {
    (CallbackState::Finished, CallbackAction::Fail(failure))
}

fn check_issued(state: CallbackState, action: CallbackAction, user_id: Uuid) -> NewUserSessionDb {
    let session = match action {
        CallbackAction::InsertSession(session) => session,
        other => panic!("no session: {:?}", other),
    };
    assert_eq!(session.user_id, user_id);
    assert_eq!(session.expires_at, session.created_at + 86400);
    assert_eq!(session.session_token_p1.len(), 36);
    assert_eq!(session.session_token_p2.len(), 36);
    assert_ne!(session.session_token_p1, session.session_token_p2);
    assert_eq!(
        state,
        CallbackState::AwaitingSessionInsert {
            set_cookie: format!(
                "session_token={}_{}; path=/; httponly; secure; samesite=strict",
                session.session_token_p1, session.session_token_p2
            ),
            return_url: "/api/auth/profile".to_string(),
        }
    );
    session
}

#[test]
fn callback_without_state_is_malformed() {
    assert_eq!(
        oauth_return(CallbackState::Start, callback(None, Some("the-code"))),
        failed(AuthFailure::MissingState)
    );
    assert_eq!(
        oauth_return(CallbackState::Start, callback(None, None)),
        failed(AuthFailure::MissingState)
    );
}

#[test]
fn callback_without_code_is_malformed() {
    assert_eq!(
        oauth_return(CallbackState::Start, callback(Some("csrf"), None)),
        failed(AuthFailure::MissingCode)
    );
}

#[test]
fn callback_consumes_the_pending_authorization() {
    assert_eq!(
        oauth_return(CallbackState::Start, callback(Some("csrf"), Some("the-code"))),
        (awaiting_consume(), CallbackAction::ConsumeRecord("csrf".to_string()))
    );
}

#[test]
fn callback_with_state_never_issued_is_rejected() {
    let (state, action) =
        oauth_return(CallbackState::Start, callback(Some("never-issued"), Some("the-code")));
    assert_eq!(action, CallbackAction::ConsumeRecord("never-issued".to_string()));
    let (state, action) = oauth_return(state, CallbackEvent::Consumed(Err(InfraError::NotFound)));
    assert_eq!(state, CallbackState::Finished);
    assert_eq!(action, CallbackAction::Fail(AuthFailure::ReplayOrExpired));
    assert_eq!(AuthFailure::ReplayOrExpired.class(), ErrorClass::Protocol);
    assert_eq!(
        AuthFailure::ReplayOrExpired.to_auth_error(),
        AuthError::InfraError(InfraError::NotFound)
    );
    assert_eq!(AuthFailure::ReplayOrExpired.to_auth_error().status_code(), 500);
}

#[test]
fn callback_fails_when_the_store_fails_to_consume() {
    assert_eq!(
        oauth_return(
            awaiting_consume(),
            CallbackEvent::Consumed(Err(InfraError::InternalServerError))
        ),
        failed(AuthFailure::Storage(InfraError::InternalServerError))
    );
}

#[test]
fn consumed_record_asks_for_credentials() {
    assert_eq!(
        oauth_return(
            awaiting_consume(),
            CallbackEvent::Consumed(Ok((VERIFIER.to_string(), "/api/auth/profile".to_string())))
        ),
        (awaiting_credentials(), CallbackAction::ReadCredentials)
    );
}

#[test]
fn credentials_send_the_code_for_exchange() {
    let client = get_client("example.com".to_string(), credentials()).unwrap();
    assert_eq!(
        oauth_return(awaiting_credentials(), CallbackEvent::Credentials(credentials())),
        (
            CallbackState::AwaitingExchange { return_url: "/api/auth/profile".to_string() },
            CallbackAction::ExchangeCode {
                client,
                code: "the-code".to_string(),
                pkce_code_verifier: VERIFIER.to_string(),
            }
        )
    );
}

#[test]
fn missing_credentials_fail_the_callback() {
    let missing = ProviderCredentials { client_id: None, client_secret: None };
    assert_eq!(
        oauth_return(awaiting_credentials(), CallbackEvent::Credentials(missing)),
        failed(AuthFailure::MissingClientId)
    );
    let missing = ProviderCredentials { client_id: Some("c".to_string()), client_secret: None };
    assert_eq!(
        oauth_return(awaiting_credentials(), CallbackEvent::Credentials(missing)),
        failed(AuthFailure::MissingClientSecret)
    );
}

#[test]
fn failed_exchange_fails_the_callback() {
    let waiting = || CallbackState::AwaitingExchange { return_url: "/".to_string() };
    assert_eq!(
        oauth_return(waiting(), CallbackEvent::Exchanged(Err(ExchangeFault::Aborted))),
        failed(AuthFailure::ExchangeAborted)
    );
    assert_eq!(
        oauth_return(waiting(), CallbackEvent::Exchanged(Err(ExchangeFault::Failed))),
        failed(AuthFailure::ExchangeFailed)
    );
}

#[test]
fn access_token_asks_for_user_info() {
    assert_eq!(
        oauth_return(
            CallbackState::AwaitingExchange { return_url: "/api/auth/profile".to_string() },
            CallbackEvent::Exchanged(Ok("ya29.token".to_string()))
        ),
        (
            awaiting_user_info(),
            CallbackAction::FetchUserInfo(
                "https://www.googleapis.com/oauth2/v2/userinfo?oauth_token=ya29.token".to_string()
            )
        )
    );
}

#[test]
fn failed_user_info_request_fails_the_callback() {
    assert_eq!(
        oauth_return(awaiting_user_info(), CallbackEvent::UserInfo(Err(FetchFault::Unreachable))),
        failed(AuthFailure::UserInfoUnreachable)
    );
    assert_eq!(
        oauth_return(awaiting_user_info(), CallbackEvent::UserInfo(Err(FetchFault::Unreadable))),
        failed(AuthFailure::UserInfoUnreadable)
    );
}

#[test]
fn malformed_user_info_fails_the_callback() {
    assert_eq!(
        oauth_return(awaiting_user_info(), CallbackEvent::UserInfo(Ok("not json".to_string()))),
        failed(AuthFailure::UserInfoMalformed)
    );
    assert_eq!(
        oauth_return(awaiting_user_info(), CallbackEvent::UserInfo(Ok("{}".to_string()))),
        failed(AuthFailure::UserInfoWithoutEmail)
    );
    assert_eq!(
        oauth_return(awaiting_user_info(), CallbackEvent::UserInfo(Ok("[]".to_string()))),
        failed(AuthFailure::UserInfoWithoutEmail)
    );
    assert_eq!(
        oauth_return(
            awaiting_user_info(),
            CallbackEvent::UserInfo(Ok(r#"{"email":"new@example.com"}"#.to_string()))
        ),
        failed(AuthFailure::UserInfoWithoutVerification)
    );
}

#[test]
fn verified_email_asks_who_goes_by_it() {
    assert_eq!(
        oauth_return(
            awaiting_user_info(),
            CallbackEvent::UserInfo(Ok(
                r#"{"email":"new@example.com","verified_email":true}"#.to_string()
            ))
        ),
        (awaiting_user_lookup(), CallbackAction::FindUser("new@example.com".to_string()))
    );
}

#[test]
fn unverified_email_creates_nothing() {
    let (state, action) = oauth_return(
        awaiting_user_info(),
        CallbackEvent::UserInfo(Ok(
            r#"{"email":"new@example.com","verified_email":false}"#.to_string()
        )),
    );
    assert_eq!(state, CallbackState::Finished);
    assert_eq!(action, CallbackAction::Fail(AuthFailure::EmailNotVerified));
    let response = AuthFailure::EmailNotVerified.to_auth_error().into_response();
    assert_eq!(response.status, 500);
    assert_eq!(response.resource, "Auth");
    assert_eq!(response.message, "OAuth: email address is not verified");
    // The flow is over: whatever it is told now, it stores no user and no session and sets no
    // cookie.
    let (state, action) = oauth_return(state, CallbackEvent::UserLookedUp(Ok(None)));
    assert_eq!((state, action), failed(AuthFailure::UnexpectedEvent));
}

#[test]
fn known_user_gets_a_session_at_once() {
    let known = UserDb { id: Uuid::from_u128(42), email: "new@example.com".to_string() };
    let (state, action) =
        oauth_return(awaiting_user_lookup(), CallbackEvent::UserLookedUp(Ok(Some(known))));
    check_issued(state, action, Uuid::from_u128(42));
}

#[test]
fn new_user_is_stored_first() {
    assert_eq!(
        oauth_return(awaiting_user_lookup(), CallbackEvent::UserLookedUp(Ok(None))),
        (
            CallbackState::AwaitingUserInsert { return_url: "/api/auth/profile".to_string() },
            CallbackAction::InsertUser(NewUserDb { email: "new@example.com".to_string() })
        )
    );
}

#[test]
fn stored_user_gets_a_session() {
    let (state, action) = oauth_return(
        CallbackState::AwaitingUserInsert { return_url: "/api/auth/profile".to_string() },
        CallbackEvent::UserInserted(Ok(Uuid::from_u128(77))),
    );
    check_issued(state, action, Uuid::from_u128(77));
}

#[test]
fn stored_session_sets_the_cookie_and_redirects() {
    assert_eq!(
        oauth_return(
            CallbackState::AwaitingSessionInsert {
                set_cookie: "session_token=a_b; path=/; httponly; secure; samesite=strict"
                    .to_string(),
                return_url: "/api/auth/profile".to_string(),
            },
            CallbackEvent::SessionInserted(Ok(()))
        ),
        (
            CallbackState::Finished,
            CallbackAction::Respond {
                set_cookie: "session_token=a_b; path=/; httponly; secure; samesite=strict"
                    .to_string(),
                redirect: Redirection { status: 302, location: "/api/auth/profile".to_string() },
            }
        )
    );
}

#[test]
fn storage_failures_fail_the_callback() {
    for e in [InfraError::InternalServerError, InfraError::NotFound] {
        assert_eq!(
            oauth_return(awaiting_user_lookup(), CallbackEvent::UserLookedUp(Err(e))),
            failed(AuthFailure::Storage(e))
        );
        assert_eq!(
            oauth_return(
                CallbackState::AwaitingUserInsert { return_url: "/".to_string() },
                CallbackEvent::UserInserted(Err(e))
            ),
            failed(AuthFailure::Storage(e))
        );
        assert_eq!(
            oauth_return(
                CallbackState::AwaitingSessionInsert {
                    set_cookie: "session_token=a_b".to_string(),
                    return_url: "/".to_string()
                },
                CallbackEvent::SessionInserted(Err(e))
            ),
            failed(AuthFailure::Storage(e))
        );
    }
}

#[test]
fn callback_rejects_events_out_of_order() {
    assert_eq!(
        oauth_return(CallbackState::Start, CallbackEvent::Exchanged(Ok("token".to_string()))),
        failed(AuthFailure::UnexpectedEvent)
    );
    assert_eq!(
        oauth_return(awaiting_consume(), CallbackEvent::SessionInserted(Ok(()))),
        failed(AuthFailure::UnexpectedEvent)
    );
    assert_eq!(
        oauth_return(awaiting_consume(), CallbackEvent::UserInserted(Ok(Uuid::nil()))),
        failed(AuthFailure::UnexpectedEvent)
    );
    assert_eq!(
        oauth_return(awaiting_user_info(), CallbackEvent::Credentials(credentials())),
        failed(AuthFailure::UnexpectedEvent)
    );
    assert_eq!(
        oauth_return(CallbackState::Finished, callback(Some("csrf"), Some("the-code"))),
        failed(AuthFailure::UnexpectedEvent)
    );
}

#[test]
fn first_login_of_a_new_user() {
    let (state, action) =
        oauth_return(CallbackState::Start, callback(Some("csrf-token"), Some("the-code")));
    assert_eq!(action, CallbackAction::ConsumeRecord("csrf-token".to_string()));

    let (state, action) = oauth_return(
        state,
        CallbackEvent::Consumed(Ok((VERIFIER.to_string(), "/api/auth/profile".to_string()))),
    );
    assert_eq!(action, CallbackAction::ReadCredentials);

    let (state, action) = oauth_return(state, CallbackEvent::Credentials(credentials()));
    match action {
        CallbackAction::ExchangeCode { client, code, pkce_code_verifier } => {
            assert_eq!(client.redirect_url, "https://example.com/api/auth/oauth_return");
            assert_eq!(code, "the-code");
            assert_eq!(pkce_code_verifier, VERIFIER);
        }
        other => panic!("no exchange: {:?}", other),
    }

    let (state, action) = oauth_return(state, CallbackEvent::Exchanged(Ok("token".to_string())));
    assert_eq!(
        action,
        CallbackAction::FetchUserInfo(
            "https://www.googleapis.com/oauth2/v2/userinfo?oauth_token=token".to_string()
        )
    );

    let (state, action) = oauth_return(
        state,
        CallbackEvent::UserInfo(Ok(
            r#"{"email":"new@example.com","verified_email":true}"#.to_string()
        )),
    );
    assert_eq!(action, CallbackAction::FindUser("new@example.com".to_string()));

    let (state, action) = oauth_return(state, CallbackEvent::UserLookedUp(Ok(None)));
    assert_eq!(
        action,
        CallbackAction::InsertUser(NewUserDb { email: "new@example.com".to_string() })
    );

    let (state, action) = oauth_return(state, CallbackEvent::UserInserted(Ok(Uuid::from_u128(5))));
    let session = match action {
        CallbackAction::InsertSession(session) => session,
        other => panic!("no session: {:?}", other),
    };
    assert_eq!(session.user_id, Uuid::from_u128(5));
    assert_eq!(session.expires_at, session.created_at + 86400);

    let (state, action) = oauth_return(state, CallbackEvent::SessionInserted(Ok(())));
    assert_eq!(state, CallbackState::Finished);
    match action {
        CallbackAction::Respond { set_cookie, redirect } => {
            assert_eq!(redirect.status, 302);
            assert_eq!(redirect.location, "/api/auth/profile");
            assert_eq!(
                set_cookie,
                format!(
                    "session_token={}_{}; path=/; httponly; secure; samesite=strict",
                    session.session_token_p1, session.session_token_p2
                )
            );
            let value = set_cookie
                .strip_prefix("session_token=")
                .unwrap()
                .strip_suffix("; path=/; httponly; secure; samesite=strict")
                .unwrap();
            let parts: Vec<&str> = value.split('_').collect();
            assert_eq!(parts.len(), 2);
            assert!(Uuid::parse_str(parts[0]).is_ok());
            assert!(Uuid::parse_str(parts[1]).is_ok());
            assert_ne!(parts[0], parts[1]);
        }
        other => panic!("no response: {:?}", other),
    }
}

#[test]
fn login_with_unverified_email_is_rejected() {
    let (state, _) =
        oauth_return(CallbackState::Start, callback(Some("csrf-token"), Some("the-code")));
    let (state, _) = oauth_return(
        state,
        CallbackEvent::Consumed(Ok((VERIFIER.to_string(), "/api/auth/profile".to_string()))),
    );
    let (state, _) = oauth_return(state, CallbackEvent::Credentials(credentials()));
    let (state, _) = oauth_return(state, CallbackEvent::Exchanged(Ok("token".to_string())));
    let (state, action) = oauth_return(
        state,
        CallbackEvent::UserInfo(Ok(
            r#"{"email":"new@example.com","verified_email":false}"#.to_string()
        )),
    );
    assert_eq!(state, CallbackState::Finished);
    assert_eq!(action, CallbackAction::Fail(AuthFailure::EmailNotVerified));
    assert_eq!(AuthFailure::EmailNotVerified.class(), ErrorClass::Protocol);
    assert_eq!(
        AuthFailure::EmailNotVerified.to_auth_error(),
        AuthError::EmailAddressIsNotVerified
    );
}
