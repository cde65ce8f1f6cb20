//! The session verifier: what runs on every request, before routing, to
//! find out who is asking. It never fails: a request without a good
//! session is an anonymous request, whatever was wrong with it.

use vstd::prelude::*;
use vstd::string::StringExecFns;

use crate::errors::redirect_to;
use crate::errors::redirection_to;
use crate::errors::AuthFailure;
use crate::errors::InfraError;
use crate::errors::Redirection;
use crate::models::identity_view;
use crate::models::text_view;
use crate::models::IdentityView;
use crate::models::SessionView;
use crate::models::UserData;
use crate::models::UserModel;
use crate::models::UserSessionModel;
use crate::models::UserView;
use crate::session::current_timestamp;
use crate::session::session_grants;
use crate::session::session_is_valid;
use crate::session::IssuedSession;
use crate::session::SESSION_LIFETIME_SECONDS;
use crate::text::before_first;
use crate::text::lemma_before_first_is_free;
use crate::text::split_at_first;
use crate::token::cookie_value;
use crate::token::lemma_session_secret_shape;
use crate::token::lemma_split_of_join;
use crate::token::parse_session_token;
use crate::token::set_cookie_header;
use crate::token::token_parts;
use crate::token::SESSION_COOKIE_NAME;

verus! {

/// `headers::Cookie`: the `Cookie` header of a request.
#[verifier::external_type_specification]
#[verifier::external_body]
pub struct ExCookie(headers::Cookie);

/// The name and value pairs that a `Cookie` header holds, in the order in
/// which `headers::Cookie::iter` yields them.
pub uninterp spec fn cookie_pairs(cookie: headers::Cookie) -> Seq<(Seq<char>, Seq<char>)>;

/// The value of the first pair that goes by `name`.
pub open spec fn first_value(pairs: Seq<(Seq<char>, Seq<char>)>, name: Seq<char>) -> Option<
    Seq<char>,
>
    decreases pairs.len(),
{
    if pairs.len() == 0 {
        None
    } else if pairs[0].0 == name {
        Some(pairs[0].1)
    } else {
        first_value(pairs.drop_first(), name)
    }
}

/// `headers::Cookie::get`: the value of the first pair of the header
/// whose name is `name`.
#[verifier::external_body]
fn cookie_get(cookie: &headers::Cookie, name: &str) -> (value: Option<String>)
    ensures
        text_view(value) == first_value(cookie_pairs(*cookie), name@),
{
    cookie.get(name).map(str::to_owned)
}

/// The session token that a request carries: the value of its session
/// cookie, where it has a `Cookie` header that holds one.
pub open spec fn session_token_of(cookie: Option<&headers::Cookie>) -> Option<Seq<char>> {
    match cookie {
        Some(c) => first_value(cookie_pairs(*c), SESSION_COOKIE_NAME@),
        None => None,
    }
}

/// Reads the session token off a request's `Cookie` header.
pub fn session_cookie(cookie: Option<&headers::Cookie>) -> (token: Option<String>)
    ensures
        text_view(token) == session_token_of(cookie),
{
    match cookie {
        Some(c) => cookie_get(c, SESSION_COOKIE_NAME),
        None => None,
    }
}

/// Where the verification of a request stands.
#[derive(Debug, PartialEq)]
pub enum VerifierState {
    /// Nothing has been looked at yet.
    Start,
    /// The session behind the token's handle has been asked for; the
    /// secret that the token presented is kept for the comparison.
    AwaitingSession { presented_secret: String },
    /// The owner of the session has been asked for.
    AwaitingUser { user_id: uuid::Uuid },
    /// The identity has been attached.
    Finished,
}

/// What the verifier is told.
#[derive(Debug, PartialEq)]
pub enum VerifierEvent {
    /// A request came in, with or without a session token.
    Request { session_token: Option<String> },
    /// The session store answered.
    SessionFound(Result<UserSessionModel, InfraError>),
    /// The user store answered.
    UserFound(Result<UserModel, InfraError>),
}

/// What the verifier asks for next.
#[derive(Debug, PartialEq)]
pub enum VerifierAction {
    /// Look up the session with this handle.
    FindSession(String),
    /// Look up the user with this identifier.
    FindUser(uuid::Uuid),
    /// Attach this identity to the request, or none, and let it through.
    Attach(Option<UserData>),
}

/// The verification ends and the request goes on without an identity.
pub open spec fn ends_anonymous(next: VerifierState, action: VerifierAction) -> bool {
    next is Finished && action == VerifierAction::Attach(None)
}

/// The parts of a session token that may be absent.
pub open spec fn presented_parts(session_token: Option<Seq<char>>) -> Option<
    (Seq<char>, Seq<char>),
> {
    match session_token {
        Some(t) => token_parts(t),
        None => None,
    }
}

/// One step of the verifier at time `now`.
///
/// A request whose token splits into a handle and a secret asks for the
/// session with that handle. A session that the secret opens at `now`
/// asks for its owner. An owner ends the verification with the identity
/// of the session's user under the owner's email address. Everything else
/// ends it without an identity: no token, a token that does not split
/// into exactly two parts, no session, a secret that does not match, an
/// expired session, no owner, or an event that was not waited for.
pub open spec fn verifier_step(
    state: VerifierState,
    event: VerifierEvent,
    now: int,
    next: VerifierState,
    action: VerifierAction,
) -> bool {
    match (state, event) {
        (VerifierState::Start, VerifierEvent::Request { session_token }) => match presented_parts(
            text_view(session_token),
        ) {
            Some((p1, p2)) => {
                &&& next matches VerifierState::AwaitingSession { presented_secret }
                &&& presented_secret@ == p2
                &&& action matches VerifierAction::FindSession(handle)
                &&& handle@ == p1
            },
            None => ends_anonymous(next, action),
        },
        (
            VerifierState::AwaitingSession { presented_secret },
            VerifierEvent::SessionFound(Ok(session)),
        ) => if session_grants(session@, presented_secret@, now) {
            &&& next == VerifierState::AwaitingUser { user_id: session.user_id }
            &&& action == VerifierAction::FindUser(session.user_id)
        } else {
            ends_anonymous(next, action)
        },
        (VerifierState::AwaitingUser { user_id }, VerifierEvent::UserFound(Ok(user))) => {
            &&& next is Finished
            &&& action matches VerifierAction::Attach(Some(identity))
            &&& identity@ == IdentityView { user_id, user_email: user@.email }
        },
        _ => ends_anonymous(next, action),
    }
}

/// One step of the verifier, with the time given.
pub fn inject_user_data_at(state: VerifierState, event: VerifierEvent, now: i64) -> (r: (
    VerifierState,
    VerifierAction,
))
    ensures
        verifier_step(state, event, now as int, r.0, r.1),
{
    match (state, event) {
        (VerifierState::Start, VerifierEvent::Request { session_token }) => {
            let parts = match session_token {
                Some(token) => parse_session_token(token.as_str()),
                None => None,
            };
            match parts {
                Some((p1, p2)) => (
                    VerifierState::AwaitingSession { presented_secret: p2 },
                    VerifierAction::FindSession(p1),
                ),
                None => (VerifierState::Finished, VerifierAction::Attach(None)),
            }
        },
        (
            VerifierState::AwaitingSession { presented_secret },
            VerifierEvent::SessionFound(Ok(session)),
        ) => {
            if session_is_valid(&session, presented_secret.as_str(), now) {
                (
                    VerifierState::AwaitingUser { user_id: session.user_id },
                    VerifierAction::FindUser(session.user_id),
                )
            } else {
                (VerifierState::Finished, VerifierAction::Attach(None))
            }
        },
        (VerifierState::AwaitingUser { user_id }, VerifierEvent::UserFound(Ok(user))) => (
            VerifierState::Finished,
            VerifierAction::Attach(Some(UserData { user_id, user_email: user.email })),
        ),
        _ => (VerifierState::Finished, VerifierAction::Attach(None)),
    }
}

/// One step of the verifier, at the time the clock shows. The clock is
/// read only where a session has been found.
pub fn inject_user_data(state: VerifierState, event: VerifierEvent) -> (r: (
    VerifierState,
    VerifierAction,
))
    ensures
        exists|now: int| #[trigger] verifier_step(state, event, now, r.0, r.1),
{
    let waits_for_clock = match (&state, &event) {
        (VerifierState::AwaitingSession { .. }, VerifierEvent::SessionFound(Ok(_))) => true,
        _ => false,
    };
    let now = if waits_for_clock {
        current_timestamp()
    } else {
        0
    };
    inject_user_data_at(state, event, now)
}

/// What the verifier arrives at for a request, where the session store
/// answers the handle's lookup with `session` and the user store answers
/// the owner's lookup with `user`.
pub open spec fn resolved_identity(
    session_token: Option<Seq<char>>,
    session: Option<SessionView>,
    user: Option<UserView>,
    now: int,
) -> Option<IdentityView> {
    match (presented_parts(session_token), session, user) {
        (Some((_, p2)), Some(s), Some(u)) => if session_grants(s, p2, now) {
            Some(IdentityView { user_id: s.user_id, user_email: u.email })
        } else {
            None
        },
        _ => None,
    }
}

/// The view of a session that a store may not have found.
pub open spec fn found_session_view(found: Result<UserSessionModel, InfraError>) -> Option<
    SessionView,
> {
    match found {
        Ok(s) => Some(s@),
        Err(_) => None,
    }
}

/// The view of a user that a store may not have found.
pub open spec fn found_user_view(found: Result<UserModel, InfraError>) -> Option<UserView> {
    match found {
        Ok(u) => Some(u@),
        Err(_) => None,
    }
}

/// A run of the verifier is the steps it takes from a request to the
/// identity it attaches, each store answering when it is asked. This
/// holds of `attached` when it is what such a run attaches.
pub open spec fn verifier_run(
    session_token: Option<String>,
    session: Result<UserSessionModel, InfraError>,
    user: Result<UserModel, InfraError>,
    now: int,
    attached: Option<UserData>,
) -> bool {
    exists|s1: VerifierState, a1: VerifierAction, s2: VerifierState, a2: VerifierAction, s3: VerifierState, a3: VerifierAction|
        {
            &&& #[trigger] verifier_step(
                VerifierState::Start,
                VerifierEvent::Request { session_token },
                now,
                s1,
                a1,
            )
            &&& if a1 is FindSession {
                &&& #[trigger] verifier_step(s1, VerifierEvent::SessionFound(session), now, s2, a2)
                &&& if a2 is FindUser {
                    &&& #[trigger] verifier_step(s2, VerifierEvent::UserFound(user), now, s3, a3)
                    &&& a3 == VerifierAction::Attach(attached)
                } else {
                    a2 == VerifierAction::Attach(attached)
                }
            } else {
                a1 == VerifierAction::Attach(attached)
            }
        }
}

/// Every run of the verifier attaches the identity that
/// [`resolved_identity`] names.
pub proof fn law_run_resolves_identity(
    session_token: Option<String>,
    session: Result<UserSessionModel, InfraError>,
    user: Result<UserModel, InfraError>,
    now: int,
    attached: Option<UserData>,
)
    requires
        verifier_run(session_token, session, user, now, attached),
    ensures
        identity_view(attached) == resolved_identity(
            text_view(session_token),
            found_session_view(session),
            found_user_view(user),
            now,
        ),
{
}

/// A session that has reached its expiry yields no identity, even to the
/// token whose secret matches it exactly.
pub proof fn law_expired_session_is_anonymous(
    presented_secret: String,
    session: UserSessionModel,
    now: int,
    next: VerifierState,
    action: VerifierAction,
)
    requires
        session@.expires_at <= now,
        verifier_step(
            VerifierState::AwaitingSession { presented_secret },
            VerifierEvent::SessionFound(Ok(session)),
            now,
            next,
            action,
        ),
    ensures
        ends_anonymous(next, action),
        forall|session_token: Option<Seq<char>>, user: Option<UserView>| #[trigger]
            resolved_identity(session_token, Some(session@), user, now) is None,
{
}

/// Issuing a session and then verifying the token that the issuer put
/// in the cookie, before the session expires, yields the identity of the
/// user who owns the session: the token splits into the session's handle
/// and secret, the secret opens the stored session, and the owner's
/// identity is what the verifier resolves.
pub proof fn law_issued_session_resolves_to_owner(
    owner: UserView,
    issued: IssuedSession,
    stored: SessionView,
    now: int,
)
    requires
        issued.issued_to(owner.id),
        stored.unsaved() == issued.session@,
        stored.created_at <= now < stored.created_at + SESSION_LIFETIME_SECONDS,
    ensures
        ({
            let token = cookie_value(stored.session_token_p1, stored.session_token_p2);
            &&& issued.set_cookie@ == set_cookie_header(token)
            &&& presented_parts(Some(token)) == Some(
                (stored.session_token_p1, stored.session_token_p2),
            )
            &&& session_grants(stored, stored.session_token_p2, now)
            &&& resolved_identity(Some(token), Some(stored), Some(owner), now) == Some(
                IdentityView { user_id: owner.id, user_email: owner.email },
            )
        }),
{
    lemma_session_secret_shape(stored.session_token_p1);
    lemma_session_secret_shape(stored.session_token_p2);
    lemma_split_of_join(stored.session_token_p1, stored.session_token_p2);
}

/// How far the verification of a request has come.
pub open spec fn verifier_progress(state: VerifierState) -> nat {
    match state {
        VerifierState::Start => 0,
        VerifierState::AwaitingSession { .. } => 1,
        VerifierState::AwaitingUser { .. } => 2,
        VerifierState::Finished => 3,
    }
}

/// Every step brings the verifier further, so that it ends after three
/// steps at most, and it ends exactly when it attaches an identity or
/// none: there is no step at which it fails.
pub proof fn law_verifier_advances(
    state: VerifierState,
    event: VerifierEvent,
    now: int,
    next: VerifierState,
    action: VerifierAction,
)
    requires
        verifier_step(state, event, now, next, action),
    ensures
        next is Finished || verifier_progress(next) > verifier_progress(state),
        next is Finished <==> action is Attach,
{
}

/// The login endpoint, up to the path to return to after login.
pub const LOGIN_REDIRECT_PREFIX: &'static str = "/api/auth/login?return_url=";

/// What the access gate does with a request.
#[derive(Debug, PartialEq)]
pub enum GateDecision {
    /// The request carries an identity: pass it on.
    Proceed,
    /// The request is anonymous: answer with this redirect.
    RedirectToLogin(Redirection),
}

/// The character behind which the query of a request stands.
pub const QUERY_SEPARATOR: char = '?';

/// The path of a request: its target up to the query, all of it where
/// it has none.
pub open spec fn request_path(uri: Seq<char>) -> Seq<char> {
    before_first(uri, QUERY_SEPARATOR)
}

/// Where an anonymous request for `path` is sent: to the login
/// endpoint, which will return the browser to `path`.
pub open spec fn login_redirect(path: Seq<char>) -> Seq<char> {
    LOGIN_REDIRECT_PREFIX@ + path
}

/// What is decided for the identity slot of a request for `uri`: an
/// anonymous request is sent to log in and to come back to its path,
/// without the query.
pub open spec fn gate_decides(
    user_data: Option<&Option<UserData>>,
    uri: Seq<char>,
    r: Result<GateDecision, AuthFailure>,
) -> bool {
    match user_data {
        None => r == Err::<GateDecision, AuthFailure>(AuthFailure::IdentityNotAttached),
        Some(Some(_)) => r == Ok::<GateDecision, AuthFailure>(GateDecision::Proceed),
        Some(None) => r matches Ok(GateDecision::RedirectToLogin(redirect)) && redirect@
            == redirection_to(login_redirect(request_path(uri))),
    }
}

/// The access gate of a protected route: lets a request with an identity
/// through and sends an anonymous one, with status 302, to log in and
/// come back to the path it asked for. `uri` is the target of the
/// request; a query that it carries is left behind. It fails only where
/// the verifier has not run, so that there is no identity slot to look
/// at.
pub fn check_auth(user_data: Option<&Option<UserData>>, uri: &str) -> (r: Result<
    GateDecision,
    AuthFailure,
>)
    ensures
        gate_decides(user_data, uri@, r),
{
    match user_data {
        None => Err(AuthFailure::IdentityNotAttached),
        Some(Some(_)) => Ok(GateDecision::Proceed),
        Some(None) => {
            let (path, _) = split_at_first(uri, QUERY_SEPARATOR);
            Ok(
                GateDecision::RedirectToLogin(
                    redirect_to(LOGIN_REDIRECT_PREFIX.to_owned().concat(path.as_str())),
                ),
            )
        },
    }
}

/// The return target that the access gate names holds no query, and a
/// request given by its path alone comes back to that path.
pub proof fn law_gate_returns_to_the_path(uri: Seq<char>)
    ensures
        forall|j: int|
            0 <= j < request_path(uri).len() ==> #[trigger] request_path(uri)[j]
                != QUERY_SEPARATOR,
        request_path(request_path(uri)) == request_path(uri),
{
    lemma_before_first_is_free(uri, QUERY_SEPARATOR);
}

} // verus!
