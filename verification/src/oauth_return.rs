//! The callback: from the provider's redirect back to this service to a
//! browser that holds a session cookie, or to a rejected attempt.

use vstd::prelude::*;

use crate::errors::redirect_to;
use crate::errors::redirection_to;
use crate::errors::AuthFailure;
use crate::errors::ExchangeFault;
use crate::errors::FetchFault;
use crate::errors::InfraError;
use crate::errors::Redirection;
use crate::errors::STATUS_FOUND;
use crate::models::text_view;
use crate::models::CallbackParams;
use crate::models::ProviderCredentials;
use crate::provider::client_for;
use crate::provider::decode_user_info;
use crate::provider::get_client;
use crate::provider::user_info_fields;
use crate::provider::userinfo_request_url;
use crate::provider::userinfo_url;
use crate::provider::verified_email_of;
use crate::provider::ProviderClient;
use crate::provider::EMAIL_MEMBER;
use crate::provider::VERIFIED_EMAIL_MEMBER;
use crate::repositories::insert_if_not_exists;
use crate::repositories::NewUserDb;
use crate::repositories::NewUserSessionDb;
use crate::repositories::UserDb;
use crate::repositories::UserUpsert;
use crate::session::issue_session;
use crate::session::SESSION_LIFETIME_SECONDS;
use crate::session::IssuedSession;

verus! {

/// Where a callback stands.
#[derive(Debug, PartialEq)]
pub enum CallbackState {
    /// Nothing has happened yet.
    Start,
    /// The pending authorization has been asked for, to be consumed.
    AwaitingConsume { code: String, hostname: String },
    /// The provider credentials have been asked for.
    AwaitingCredentials { code: String, hostname: String, pkce_code_verifier: String, return_url: String },
    /// The authorization code has been sent off for exchange.
    AwaitingExchange { return_url: String },
    /// The user's info has been asked of the provider.
    AwaitingUserInfo { return_url: String },
    /// The user store has been asked who goes by the email address.
    AwaitingUserLookup { email: String, return_url: String },
    /// The new user has been handed to the store.
    AwaitingUserInsert { return_url: String },
    /// The new session has been handed to the store.
    AwaitingSessionInsert { set_cookie: String, return_url: String },
    /// The browser has been answered.
    Finished,
}

/// What the callback flow is told.
#[derive(Debug, PartialEq)]
pub enum CallbackEvent {
    /// The callback endpoint was called.
    Request { params: CallbackParams, hostname: String },
    /// The store answered with the PKCE verifier and the return target of
    /// the pending authorization that it removed, in that order.
    Consumed(Result<(String, String), InfraError>),
    /// The environment was read for the provider credentials.
    Credentials(ProviderCredentials),
    /// The token endpoint answered with an access token.
    Exchanged(Result<String, ExchangeFault>),
    /// The user-info endpoint answered with a body.
    UserInfo(Result<String, FetchFault>),
    /// The user store answered who goes by the email address, if anyone.
    UserLookedUp(Result<Option<UserDb>, InfraError>),
    /// The user store answered with the identifier of the new user.
    UserInserted(Result<uuid::Uuid, InfraError>),
    /// The session store answered the insertion of the session.
    SessionInserted(Result<(), InfraError>),
}

/// What the callback flow asks for next.
#[derive(Debug, PartialEq)]
pub enum CallbackAction {
    /// Remove the pending authorization under this CSRF token and hand
    /// it over.
    ConsumeRecord(String),
    /// Read the provider credentials from the environment.
    ReadCredentials,
    /// Exchange the authorization code for an access token, off the
    /// request path.
    ExchangeCode { client: ProviderClient, code: String, pkce_code_verifier: String },
    /// Get the body that this URL answers with.
    FetchUserInfo(String),
    /// Look up the user with this email address.
    FindUser(String),
    /// Store this user.
    InsertUser(NewUserDb),
    /// Store this session.
    InsertSession(NewUserSessionDb),
    /// Set the cookie and answer with this redirect.
    Respond { set_cookie: String, redirect: Redirection },
    /// Answer with this failure.
    Fail(AuthFailure),
}

/// The flow ends and the browser is answered with `failure`.
pub open spec fn callback_fails(
    next: CallbackState,
    action: CallbackAction,
    failure: AuthFailure,
) -> bool {
    next is Finished && action == CallbackAction::Fail(failure)
}

/// What the flow reports when the pending authorization could not be
/// consumed: a record that is not there was never issued, has been used
/// or is gone; anything else is a failure of the store.
pub open spec fn consume_failure(e: InfraError) -> AuthFailure {
    match e {
        InfraError::NotFound => AuthFailure::ReplayOrExpired,
        InfraError::InternalServerError => AuthFailure::Storage(e),
    }
}

/// A session is issued to `user_id` and handed to the store, and the
/// cookie and the return target are kept for the answer.
pub open spec fn session_issued(
    next: CallbackState,
    action: CallbackAction,
    user_id: uuid::Uuid,
    return_url: Seq<char>,
) -> bool {
    &&& next matches CallbackState::AwaitingSessionInsert { set_cookie, return_url: target }
    &&& action matches CallbackAction::InsertSession(session)
    &&& (IssuedSession { session, set_cookie }).issued_to(user_id)
    &&& target@ == return_url
}

/// One step of the callback flow.
///
/// 1. A request without `state`, or else without `code`, fails as
///    malformed. Any other asks for the pending authorization under
///    `state`, to be consumed.
/// 2. If none is there, the flow fails as a replay; nothing has been
///    asked of the provider. Otherwise the credentials are asked for.
/// 3. With a client for them the code is sent for exchange, with the
///    PKCE verifier that the record held; without one the flow fails for
///    the reason there is none.
/// 4. With an access token, the user's info is asked for.
/// 5. If the provider vouches for the email address, the user store is
///    asked who goes by it; if not, the flow fails and no user or
///    session is touched.
/// 6. A known user gets a session at once; a new one is stored first.
/// 7. The session is issued: two fresh secrets, created now, expiring
///    one lifetime later, with the cookie that carries its token.
/// 8. Once the store has the session, the cookie is set and the browser
///    is sent, with status 302, to the return target that the record
///    held.
///
/// A storage failure fails the flow at any step, and so does an event
/// that was not waited for. A failure after the first step leaves the
/// pending authorization consumed: the login has to be started again.
pub open spec fn callback_step(
    state: CallbackState,
    event: CallbackEvent,
    next: CallbackState,
    action: CallbackAction,
) -> bool {
    match (state, event) {
        (CallbackState::Start, CallbackEvent::Request { params, hostname }) => match (
            params.state,
            params.code,
        ) {
            (None, _) => callback_fails(next, action, AuthFailure::MissingState),
            (Some(_), None) => callback_fails(next, action, AuthFailure::MissingCode),
            (Some(csrf_state), Some(code)) => {
                &&& next matches CallbackState::AwaitingConsume { code: kept_code, hostname: host }
                &&& kept_code@ == code@
                &&& host@ == hostname@
                &&& action matches CallbackAction::ConsumeRecord(key)
                &&& key@ == csrf_state@
            },
        },
        (CallbackState::AwaitingConsume { code, hostname }, CallbackEvent::Consumed(Err(e))) => callback_fails(
            next,
            action,
            consume_failure(e),
        ),
        (
            CallbackState::AwaitingConsume { code, hostname },
            CallbackEvent::Consumed(Ok((pkce_code_verifier, return_url))),
        ) => {
            &&& next matches CallbackState::AwaitingCredentials {
                code: kept_code,
                hostname: host,
                pkce_code_verifier: verifier,
                return_url: target,
            }
            &&& kept_code@ == code@
            &&& host@ == hostname@
            &&& verifier@ == pkce_code_verifier@
            &&& target@ == return_url@
            &&& action is ReadCredentials
        },
        (
            CallbackState::AwaitingCredentials { code, hostname, pkce_code_verifier, return_url },
            CallbackEvent::Credentials(credentials),
        ) => match client_for(
            hostname@,
            text_view(credentials.client_id),
            text_view(credentials.client_secret),
        ) {
            Ok(expected) => {
                &&& next matches CallbackState::AwaitingExchange { return_url: target }
                &&& target@ == return_url@
                &&& action matches CallbackAction::ExchangeCode {
                    client,
                    code: sent_code,
                    pkce_code_verifier: verifier,
                }
                &&& client@ == expected
                &&& client@.valid()
                &&& sent_code@ == code@
                &&& verifier@ == pkce_code_verifier@
            },
            Err(failure) => callback_fails(next, action, failure),
        },
        (CallbackState::AwaitingExchange { return_url }, CallbackEvent::Exchanged(Err(fault))) => callback_fails(
            next,
            action,
            fault.failure(),
        ),
        (
            CallbackState::AwaitingExchange { return_url },
            CallbackEvent::Exchanged(Ok(access_token)),
        ) => {
            &&& next matches CallbackState::AwaitingUserInfo { return_url: target }
            &&& target@ == return_url@
            &&& action matches CallbackAction::FetchUserInfo(url)
            &&& url@ == userinfo_request_url(access_token@)
        },
        (CallbackState::AwaitingUserInfo { return_url }, CallbackEvent::UserInfo(Err(fault))) => callback_fails(
            next,
            action,
            fault.failure(),
        ),
        (CallbackState::AwaitingUserInfo { return_url }, CallbackEvent::UserInfo(Ok(body))) => match verified_email_of(
            user_info_fields(body@, EMAIL_MEMBER@, VERIFIED_EMAIL_MEMBER@),
        ) {
            Ok(verified) => {
                &&& next matches CallbackState::AwaitingUserLookup { email, return_url: target }
                &&& email@ == verified
                &&& target@ == return_url@
                &&& action matches CallbackAction::FindUser(wanted)
                &&& wanted@ == verified
            },
            Err(failure) => callback_fails(next, action, failure),
        },
        (
            CallbackState::AwaitingUserLookup { email, return_url },
            CallbackEvent::UserLookedUp(Err(e)),
        ) => callback_fails(next, action, AuthFailure::Storage(e)),
        (
            CallbackState::AwaitingUserLookup { email, return_url },
            CallbackEvent::UserLookedUp(Ok(Some(user))),
        ) => session_issued(next, action, user.id, return_url@),
        (
            CallbackState::AwaitingUserLookup { email, return_url },
            CallbackEvent::UserLookedUp(Ok(None)),
        ) => {
            &&& next matches CallbackState::AwaitingUserInsert { return_url: target }
            &&& target@ == return_url@
            &&& action matches CallbackAction::InsertUser(row)
            &&& row.email@ == email@
        },
        (CallbackState::AwaitingUserInsert { return_url }, CallbackEvent::UserInserted(Err(e))) => callback_fails(
            next,
            action,
            AuthFailure::Storage(e),
        ),
        (
            CallbackState::AwaitingUserInsert { return_url },
            CallbackEvent::UserInserted(Ok(user_id)),
        ) => session_issued(next, action, user_id, return_url@),
        (
            CallbackState::AwaitingSessionInsert { set_cookie, return_url },
            CallbackEvent::SessionInserted(Err(e)),
        ) => callback_fails(next, action, AuthFailure::Storage(e)),
        (
            CallbackState::AwaitingSessionInsert { set_cookie, return_url },
            CallbackEvent::SessionInserted(Ok(_)),
        ) => {
            &&& next is Finished
            &&& action matches CallbackAction::Respond { set_cookie: header, redirect }
            &&& header@ == set_cookie@
            &&& redirect@ == redirection_to(return_url@)
        },
        _ => callback_fails(next, action, AuthFailure::UnexpectedEvent),
    }
}

/// Issues a session to the user and hands it to the store.
fn establish_session(user_id: uuid::Uuid, return_url: String) -> (r: (
    CallbackState,
    CallbackAction,
))
    ensures
        session_issued(r.0, r.1, user_id, return_url@),
{
    let issued = issue_session(user_id);
    (
        CallbackState::AwaitingSessionInsert { set_cookie: issued.set_cookie, return_url },
        CallbackAction::InsertSession(issued.session),
    )
}

/// One step of the callback flow.
pub fn oauth_return(state: CallbackState, event: CallbackEvent) -> (r: (
    CallbackState,
    CallbackAction,
))
    ensures
        callback_step(state, event, r.0, r.1),
{
    match (state, event) {
        (CallbackState::Start, CallbackEvent::Request { params, hostname }) => {
            let csrf_state = match params.state {
                Some(csrf_state) => csrf_state,
                None => {
                    return (
                        CallbackState::Finished,
                        CallbackAction::Fail(AuthFailure::MissingState),
                    );
                },
            };
            let code = match params.code {
                Some(code) => code,
                None => {
                    return (
                        CallbackState::Finished,
                        CallbackAction::Fail(AuthFailure::MissingCode),
                    );
                },
            };
            (
                CallbackState::AwaitingConsume { code, hostname },
                CallbackAction::ConsumeRecord(csrf_state),
            )
        },
        (CallbackState::AwaitingConsume { code, hostname }, CallbackEvent::Consumed(Err(e))) => {
            let failure = match e {
                InfraError::NotFound => AuthFailure::ReplayOrExpired,
                InfraError::InternalServerError => AuthFailure::Storage(e),
            };
            (CallbackState::Finished, CallbackAction::Fail(failure))
        },
        (
            CallbackState::AwaitingConsume { code, hostname },
            CallbackEvent::Consumed(Ok((pkce_code_verifier, return_url))),
        ) => (
            CallbackState::AwaitingCredentials { code, hostname, pkce_code_verifier, return_url },
            CallbackAction::ReadCredentials,
        ),
        (
            CallbackState::AwaitingCredentials { code, hostname, pkce_code_verifier, return_url },
            CallbackEvent::Credentials(credentials),
        ) => match get_client(hostname, credentials) {
            Ok(client) => (
                CallbackState::AwaitingExchange { return_url },
                CallbackAction::ExchangeCode { client, code, pkce_code_verifier },
            ),
            Err(failure) => (CallbackState::Finished, CallbackAction::Fail(failure)),
        },
        (CallbackState::AwaitingExchange { return_url }, CallbackEvent::Exchanged(Err(fault))) => (
            CallbackState::Finished,
            CallbackAction::Fail(fault.to_failure()),
        ),
        (
            CallbackState::AwaitingExchange { return_url },
            CallbackEvent::Exchanged(Ok(access_token)),
        ) => (
            CallbackState::AwaitingUserInfo { return_url },
            CallbackAction::FetchUserInfo(userinfo_url(access_token.as_str())),
        ),
        (CallbackState::AwaitingUserInfo { return_url }, CallbackEvent::UserInfo(Err(fault))) => (
            CallbackState::Finished,
            CallbackAction::Fail(fault.to_failure()),
        ),
        (CallbackState::AwaitingUserInfo { return_url }, CallbackEvent::UserInfo(Ok(body))) => {
            match decode_user_info(body.as_str()) {
                Ok(email) => {
                    let wanted = email.clone();
                    (
                        CallbackState::AwaitingUserLookup { email, return_url },
                        CallbackAction::FindUser(wanted),
                    )
                },
                Err(failure) => (CallbackState::Finished, CallbackAction::Fail(failure)),
            }
        },
        (
            CallbackState::AwaitingUserLookup { email, return_url },
            CallbackEvent::UserLookedUp(Err(e)),
        ) => (CallbackState::Finished, CallbackAction::Fail(AuthFailure::Storage(e))),
        (
            CallbackState::AwaitingUserLookup { email, return_url },
            CallbackEvent::UserLookedUp(Ok(existing_user)),
        ) => match insert_if_not_exists(existing_user, email) {
            UserUpsert::Existing(user_id) => establish_session(user_id, return_url),
            UserUpsert::Insert(row) => (
                CallbackState::AwaitingUserInsert { return_url },
                CallbackAction::InsertUser(row),
            ),
        },
        (CallbackState::AwaitingUserInsert { return_url }, CallbackEvent::UserInserted(Err(e))) => (
            CallbackState::Finished,
            CallbackAction::Fail(AuthFailure::Storage(e)),
        ),
        (
            CallbackState::AwaitingUserInsert { return_url },
            CallbackEvent::UserInserted(Ok(user_id)),
        ) => establish_session(user_id, return_url),
        (
            CallbackState::AwaitingSessionInsert { set_cookie, return_url },
            CallbackEvent::SessionInserted(Err(e)),
        ) => (CallbackState::Finished, CallbackAction::Fail(AuthFailure::Storage(e))),
        (
            CallbackState::AwaitingSessionInsert { set_cookie, return_url },
            CallbackEvent::SessionInserted(Ok(_)),
        ) => (
            CallbackState::Finished,
            CallbackAction::Respond { set_cookie, redirect: redirect_to(return_url) },
        ),
        _ => (CallbackState::Finished, CallbackAction::Fail(AuthFailure::UnexpectedEvent)),
    }
}

/// A callback whose `state` matches no pending authorization is rejected
/// at once as a breach of protocol: the flow ends there, and nothing is
/// asked of the provider, of the user store or of the session store.
pub proof fn law_unknown_state_is_rejected(
    code: String,
    hostname: String,
    next: CallbackState,
    action: CallbackAction,
)
    requires
        callback_step(
            CallbackState::AwaitingConsume { code, hostname },
            CallbackEvent::Consumed(Err(InfraError::NotFound)),
            next,
            action,
        ),
    ensures
        next is Finished,
        action == CallbackAction::Fail(AuthFailure::ReplayOrExpired),
        AuthFailure::ReplayOrExpired.class_of() == crate::errors::ErrorClass::Protocol,
{
}

/// An email address that the provider has not verified ends the callback
/// with that failure: no user is looked up or stored, and no session is
/// issued.
pub proof fn law_unverified_email_is_rejected(
    return_url: String,
    body: String,
    email: Seq<char>,
    next: CallbackState,
    action: CallbackAction,
)
    requires
        user_info_fields(body@, EMAIL_MEMBER@, VERIFIED_EMAIL_MEMBER@) == Some(
            (Some(email), Some(false)),
        ),
        callback_step(
            CallbackState::AwaitingUserInfo { return_url },
            CallbackEvent::UserInfo(Ok(body)),
            next,
            action,
        ),
    ensures
        next is Finished,
        action == CallbackAction::Fail(AuthFailure::EmailNotVerified),
{
}

/// A callback that runs to its end answers as the login was begun: when
/// every store and the provider answer well, and the provider vouches
/// for the email address of a user not seen before, then the user is
/// stored under that address, a session is issued to the identifier the
/// store gave, lasting one lifetime, and the browser gets the cookie of
/// that session's token and is sent to the return target that the
/// pending authorization held.
pub proof fn law_first_login_ends_with_session(
    params: CallbackParams,
    hostname: String,
    consumed: (String, String),
    credentials: ProviderCredentials,
    access_token: String,
    body: String,
    email: Seq<char>,
    user_id: uuid::Uuid,
    steps: Seq<(CallbackState, CallbackAction)>,
)
    requires
        params.state is Some,
        params.code is Some,
        client_for(
            hostname@,
            text_view(credentials.client_id),
            text_view(credentials.client_secret),
        ) is Ok,
        user_info_fields(body@, EMAIL_MEMBER@, VERIFIED_EMAIL_MEMBER@) == Some(
            (Some(email), Some(true)),
        ),
        steps.len() == 8,
        callback_step(
            CallbackState::Start,
            CallbackEvent::Request { params, hostname },
            steps[0].0,
            steps[0].1,
        ),
        callback_step(steps[0].0, CallbackEvent::Consumed(Ok(consumed)), steps[1].0, steps[1].1),
        callback_step(steps[1].0, CallbackEvent::Credentials(credentials), steps[2].0, steps[2].1),
        callback_step(steps[2].0, CallbackEvent::Exchanged(Ok(access_token)), steps[3].0, steps[3].1),
        callback_step(steps[3].0, CallbackEvent::UserInfo(Ok(body)), steps[4].0, steps[4].1),
        callback_step(steps[4].0, CallbackEvent::UserLookedUp(Ok(None)), steps[5].0, steps[5].1),
        callback_step(steps[5].0, CallbackEvent::UserInserted(Ok(user_id)), steps[6].0, steps[6].1),
        callback_step(steps[6].0, CallbackEvent::SessionInserted(Ok(())), steps[7].0, steps[7].1),
    ensures
        steps[0].1 matches CallbackAction::ConsumeRecord(key) && key@ == params.state->0@,
        steps[3].1 matches CallbackAction::FetchUserInfo(url) && url@ == userinfo_request_url(
            access_token@,
        ),
        steps[5].1 matches CallbackAction::InsertUser(row) && row.email@ == email,
        ({
            &&& steps[6].1 matches CallbackAction::InsertSession(session)
            &&& steps[7].1 matches CallbackAction::Respond { set_cookie, redirect }
            &&& (IssuedSession { session, set_cookie }).issued_to(user_id)
            &&& session@.expires_at == session@.created_at + SESSION_LIFETIME_SECONDS
            &&& redirect@ == redirection_to(consumed.1@)
        }),
        steps[7].0 is Finished,
{
}

/// How far a callback has come.
pub open spec fn callback_progress(state: CallbackState) -> nat {
    match state {
        CallbackState::Start => 0,
        CallbackState::AwaitingConsume { .. } => 1,
        CallbackState::AwaitingCredentials { .. } => 2,
        CallbackState::AwaitingExchange { .. } => 3,
        CallbackState::AwaitingUserInfo { .. } => 4,
        CallbackState::AwaitingUserLookup { .. } => 5,
        CallbackState::AwaitingUserInsert { .. } => 6,
        CallbackState::AwaitingSessionInsert { .. } => 7,
        CallbackState::Finished => 8,
    }
}

/// Every step brings the callback further, so that it ends after eight
/// steps at most. It ends exactly when it answers the browser, with the
/// cookie or a failure; until then it asks for something. Each thing is
/// asked for at one point of the flow only: the pending authorization is
/// consumed at the start and never again, the provider is called only
/// after that, and a session is issued only for a user that the store
/// has named.
pub proof fn law_callback_advances(
    state: CallbackState,
    event: CallbackEvent,
    next: CallbackState,
    action: CallbackAction,
)
    requires
        callback_step(state, event, next, action),
    ensures
        next is Finished || callback_progress(next) > callback_progress(state),
        next is Finished <==> (action is Respond || action is Fail),
        action is ConsumeRecord ==> state is Start,
        action is ExchangeCode ==> state is AwaitingCredentials,
        action is FetchUserInfo ==> state is AwaitingExchange,
        action is FindUser ==> state is AwaitingUserInfo,
        action is InsertUser ==> state is AwaitingUserLookup,
        action is InsertSession ==> state is AwaitingUserLookup || state is AwaitingUserInsert,
        action is Respond ==> state is AwaitingSessionInsert,
        action matches CallbackAction::Respond { redirect, .. } ==> redirect.status
            == STATUS_FOUND,
{
}

} // verus!
