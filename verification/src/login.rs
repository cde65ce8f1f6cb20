//! Login initiation: from an anonymous caller to a browser on its way to
//! the identity provider, with the attempt on record.

use vstd::prelude::*;

use crate::errors::redirect_to;
use crate::errors::redirection_to;
use crate::errors::AuthFailure;
use crate::errors::InfraError;
use crate::errors::Redirection;
use crate::errors::STATUS_FOUND;
use crate::models::text_view;
use crate::models::LoginParams;
use crate::models::PendingAuthorizationView;
use crate::models::ProviderCredentials;
use crate::models::UserData;
use crate::provider::build_authorization_request;
use crate::provider::authorization_url;
use crate::provider::callback_url;
use crate::provider::client_for;
use crate::provider::EMAIL_SCOPE;
use crate::repositories::NewOauth2Record;

verus! {

/// Where a caller lands who is already logged in, and where a login
/// returns to when the caller names no place.
pub const DEFAULT_RETURN_URL: &'static str = "/";

/// Where a login attempt stands.
#[derive(Debug, PartialEq)]
pub enum LoginState {
    /// Nothing has happened yet.
    Start,
    /// The provider credentials have been asked for.
    AwaitingCredentials { return_url: String, hostname: String },
    /// The pending authorization has been handed to the store.
    AwaitingInsert { authorize_url: String },
    /// The caller has been answered.
    Finished,
}

/// What the login flow is told.
#[derive(Debug, PartialEq)]
pub enum LoginEvent {
    /// The login endpoint was called.
    Request { user_data: Option<UserData>, params: LoginParams, hostname: String },
    /// The environment was read for the provider credentials.
    Credentials(ProviderCredentials),
    /// The store answered the insertion of the pending authorization.
    Inserted(Result<(), InfraError>),
}

/// What the login flow asks for next.
#[derive(Debug, PartialEq)]
pub enum LoginAction {
    /// Read the provider credentials from the environment.
    ReadCredentials,
    /// Store this pending authorization.
    InsertRecord(NewOauth2Record),
    /// Answer with this redirect.
    Redirect(Redirection),
    /// Answer with this failure.
    Fail(AuthFailure),
}

/// Where the browser returns to after login: the place the caller named,
/// the root where the caller named none.
pub open spec fn return_target(params: LoginParams) -> Seq<char> {
    match params.return_url {
        Some(url) => url@,
        None => DEFAULT_RETURN_URL@,
    }
}

/// The flow ends and the caller is answered with `failure`.
pub open spec fn login_fails(next: LoginState, action: LoginAction, failure: AuthFailure) -> bool {
    next is Finished && action == LoginAction::Fail(failure)
}

/// The flow ends and the browser is sent to `target`, with status 302.
pub open spec fn login_redirects(next: LoginState, action: LoginAction, target: Seq<char>) -> bool {
    &&& next is Finished
    &&& action matches LoginAction::Redirect(redirect)
    &&& redirect@ == redirection_to(target)
}

/// One step of the login flow.
///
/// Every redirect is answered with status 302. A caller who is logged in
/// already is sent to the landing page and nothing else happens. For any other, the credentials are asked for.
/// With a client for them, an authorization request is drawn up and the
/// attempt goes on record under its CSRF token, with the PKCE verifier
/// and the return target; without one, the flow fails for the reason
/// there is none. Once the store has the record, the browser is sent to
/// the authorization URL; if the store fails, so does the flow. An event
/// that was not waited for fails it too.
pub open spec fn login_step(
    state: LoginState,
    event: LoginEvent,
    next: LoginState,
    action: LoginAction,
) -> bool {
    match (state, event) {
        (LoginState::Start, LoginEvent::Request { user_data, params, hostname }) => if user_data is Some {
            login_redirects(next, action, DEFAULT_RETURN_URL@)
        } else {
            &&& next matches LoginState::AwaitingCredentials { return_url, hostname: host }
            &&& return_url@ == return_target(params)
            &&& host@ == hostname@
            &&& action is ReadCredentials
        },
        (
            LoginState::AwaitingCredentials { return_url, hostname },
            LoginEvent::Credentials(credentials),
        ) => match client_for(
            hostname@,
            text_view(credentials.client_id),
            text_view(credentials.client_secret),
        ) {
            Ok(client) => {
                &&& next matches LoginState::AwaitingInsert { authorize_url }
                &&& action matches LoginAction::InsertRecord(record)
                &&& record@.return_url == return_url@
                &&& (crate::provider::AuthorizationRequest {
                    authorize_url,
                    csrf_state: record.csrf_state,
                    pkce_code_verifier: record.pkce_code_verifier,
                }).drawn_for(client)
            },
            Err(failure) => login_fails(next, action, failure),
        },
        (LoginState::AwaitingInsert { authorize_url }, LoginEvent::Inserted(Ok(_))) => login_redirects(
            next,
            action,
            authorize_url@,
        ),
        (LoginState::AwaitingInsert { authorize_url }, LoginEvent::Inserted(Err(e))) => login_fails(
            next,
            action,
            AuthFailure::Storage(e),
        ),
        _ => login_fails(next, action, AuthFailure::UnexpectedEvent),
    }
}

/// One step of the login flow.
pub fn login(state: LoginState, event: LoginEvent) -> (r: (LoginState, LoginAction))
    ensures
        login_step(state, event, r.0, r.1),
{
    match (state, event) {
        (LoginState::Start, LoginEvent::Request { user_data, params, hostname }) => {
            if user_data.is_some() {
                (
                    LoginState::Finished,
                    LoginAction::Redirect(redirect_to(DEFAULT_RETURN_URL.to_owned())),
                )
            } else {
                let return_url = match params.return_url {
                    Some(url) => url,
                    None => DEFAULT_RETURN_URL.to_owned(),
                };
                (
                    LoginState::AwaitingCredentials { return_url, hostname },
                    LoginAction::ReadCredentials,
                )
            }
        },
        (
            LoginState::AwaitingCredentials { return_url, hostname },
            LoginEvent::Credentials(credentials),
        ) => {
            match build_authorization_request(hostname, credentials) {
                Ok(request) => {
                    let record = NewOauth2Record {
                        csrf_state: request.csrf_state,
                        pkce_code_verifier: request.pkce_code_verifier,
                        return_url,
                    };
                    (
                        LoginState::AwaitingInsert { authorize_url: request.authorize_url },
                        LoginAction::InsertRecord(record),
                    )
                },
                Err(failure) => (LoginState::Finished, LoginAction::Fail(failure)),
            }
        },
        (LoginState::AwaitingInsert { authorize_url }, LoginEvent::Inserted(Ok(_))) => (
            LoginState::Finished,
            LoginAction::Redirect(redirect_to(authorize_url)),
        ),
        (LoginState::AwaitingInsert { authorize_url }, LoginEvent::Inserted(Err(e))) => (
            LoginState::Finished,
            LoginAction::Fail(AuthFailure::Storage(e)),
        ),
        _ => (LoginState::Finished, LoginAction::Fail(AuthFailure::UnexpectedEvent)),
    }
}

/// Login initiation is idempotent for a caller who is logged in already:
/// whatever the parameters and the host, and however often it is called,
/// the flow ends at once with a redirect to the landing page, and no
/// pending authorization is put on record.
pub proof fn law_login_of_authenticated_caller(
    identity: UserData,
    params: LoginParams,
    hostname: String,
    next: LoginState,
    action: LoginAction,
    other_params: LoginParams,
    other_hostname: String,
    other_next: LoginState,
    other_action: LoginAction,
)
    requires
        login_step(
            LoginState::Start,
            LoginEvent::Request { user_data: Some(identity), params, hostname },
            next,
            action,
        ),
        login_step(
            LoginState::Start,
            LoginEvent::Request {
                user_data: Some(identity),
                params: other_params,
                hostname: other_hostname,
            },
            other_next,
            other_action,
        ),
    ensures
        login_redirects(next, action, DEFAULT_RETURN_URL@),
        login_redirects(other_next, other_action, DEFAULT_RETURN_URL@),
        action !is InsertRecord,
        other_action !is InsertRecord,
        next is Finished,
        ({
            &&& action matches LoginAction::Redirect(first)
            &&& other_action matches LoginAction::Redirect(second)
            &&& first@ == second@
        }),
{
}

/// A login that runs to its end sends the browser to the provider with
/// the attempt on record: for an anonymous caller, with a client for the
/// host and the credentials, and a store that takes the record, the
/// record holds the return target that the caller asked for, and the
/// browser is sent to the client's authorization URL for the email
/// scope, the CSRF token on record and the challenge of the PKCE
/// verifier on record.
pub proof fn law_login_ends_at_provider(
    params: LoginParams,
    hostname: String,
    credentials: ProviderCredentials,
    steps: Seq<(LoginState, LoginAction)>,
)
    requires
        client_for(
            hostname@,
            text_view(credentials.client_id),
            text_view(credentials.client_secret),
        ) is Ok,
        steps.len() == 3,
        login_step(
            LoginState::Start,
            LoginEvent::Request { user_data: None, params, hostname },
            steps[0].0,
            steps[0].1,
        ),
        login_step(steps[0].0, LoginEvent::Credentials(credentials), steps[1].0, steps[1].1),
        login_step(steps[1].0, LoginEvent::Inserted(Ok(())), steps[2].0, steps[2].1),
    ensures
        steps[0].1 is ReadCredentials,
        ({
            let client = client_for(
                hostname@,
                text_view(credentials.client_id),
                text_view(credentials.client_secret),
            )->Ok_0;
            &&& steps[1].1 matches LoginAction::InsertRecord(record)
            &&& steps[2].1 matches LoginAction::Redirect(target)
            &&& record@.return_url == return_target(params)
            &&& client.redirect_url == callback_url(hostname@)
            &&& target@ == redirection_to(
                authorization_url(
                    client.auth_url,
                    client.client_id,
                    client.redirect_url,
                    EMAIL_SCOPE@,
                    record@.csrf_state,
                    record@.pkce_code_verifier,
                ),
            )
        }),
        steps[2].0 is Finished,
{
}

/// How far a login attempt has come.
pub open spec fn login_progress(state: LoginState) -> nat {
    match state {
        LoginState::Start => 0,
        LoginState::AwaitingCredentials { .. } => 1,
        LoginState::AwaitingInsert { .. } => 2,
        LoginState::Finished => 3,
    }
}

/// Every step brings the login flow further, so that it ends after three
/// steps at most. It ends exactly when it answers the caller, with a
/// redirect or a failure; until then it asks for something. A pending
/// authorization is put on record only once the credentials are in, and
/// every redirect has status 302.
pub proof fn law_login_advances(
    state: LoginState,
    event: LoginEvent,
    next: LoginState,
    action: LoginAction,
)
    requires
        login_step(state, event, next, action),
    ensures
        next is Finished || login_progress(next) > login_progress(state),
        next is Finished <==> (action is Redirect || action is Fail),
        action is InsertRecord ==> state is AwaitingCredentials,
        action matches LoginAction::Redirect(redirect) ==> redirect.status == STATUS_FOUND,
{
}

} // verus!
