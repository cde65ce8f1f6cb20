//! The records that the flows read and write, each with its mathematical
//! view: text as a sequence of characters, identifiers as they are.

use vstd::prelude::*;

verus! {

/// A user: a stable identifier and the email address that the provider
/// verified.
pub struct UserView {
    pub id: uuid::Uuid,
    pub email: Seq<char>,
}

/// A session: its owner, the handle it is looked up by, the secret that
/// proves possession, and its lifetime in seconds since the Unix epoch.
pub struct SessionView {
    pub id: uuid::Uuid,
    pub user_id: uuid::Uuid,
    pub session_token_p1: Seq<char>,
    pub session_token_p2: Seq<char>,
    pub created_at: int,
    pub expires_at: int,
}

/// A session that has not been stored yet, and so has no identifier.
pub struct NewSessionView {
    pub user_id: uuid::Uuid,
    pub session_token_p1: Seq<char>,
    pub session_token_p2: Seq<char>,
    pub created_at: int,
    pub expires_at: int,
}

/// What survives the redirect to the provider and back: the CSRF token the
/// attempt is keyed by, the PKCE verifier, and where to go after login.
pub struct PendingAuthorizationView {
    pub csrf_state: Seq<char>,
    pub pkce_code_verifier: Seq<char>,
    pub return_url: Seq<char>,
}

/// The identity attached to a request.
pub struct IdentityView {
    pub user_id: uuid::Uuid,
    pub user_email: Seq<char>,
}

impl SessionView {
    /// The session as it was before it was stored.
    pub open spec fn unsaved(self) -> NewSessionView {
        NewSessionView {
            user_id: self.user_id,
            session_token_p1: self.session_token_p1,
            session_token_p2: self.session_token_p2,
            created_at: self.created_at,
            expires_at: self.expires_at,
        }
    }
}

/// The view of a text that may be absent.
pub open spec fn text_view(text: Option<String>) -> Option<Seq<char>> {
    match text {
        Some(t) => Some(t@),
        None => None,
    }
}

#[derive(Clone, Debug, PartialEq)]
pub struct UserModel {
    pub id: uuid::Uuid,
    pub email: String,
}

impl View for UserModel {
    type V = UserView;

    open spec fn view(&self) -> UserView {
        UserView { id: self.id, email: self.email@ }
    }
}

#[derive(Clone, Debug, PartialEq)]
pub struct UserSessionModel {
    pub id: uuid::Uuid,
    pub user_id: uuid::Uuid,
    pub session_token_p1: String,
    pub session_token_p2: String,
    pub created_at: i64,
    pub expires_at: i64,
}

impl View for UserSessionModel {
    type V = SessionView;

    open spec fn view(&self) -> SessionView {
        SessionView {
            id: self.id,
            user_id: self.user_id,
            session_token_p1: self.session_token_p1@,
            session_token_p2: self.session_token_p2@,
            created_at: self.created_at as int,
            expires_at: self.expires_at as int,
        }
    }
}

/// The identity that the session verifier attaches to a request and that
/// handlers read.
#[derive(Clone, Debug, PartialEq)]
pub struct UserData {
    pub user_id: uuid::Uuid,
    pub user_email: String,
}

impl View for UserData {
    type V = IdentityView;

    open spec fn view(&self) -> IdentityView {
        IdentityView { user_id: self.user_id, user_email: self.user_email@ }
    }
}

/// The view of an identity that may be absent.
pub open spec fn identity_view(identity: Option<UserData>) -> Option<IdentityView> {
    match identity {
        Some(i) => Some(i@),
        None => None,
    }
}

/// The query parameters of the login endpoint.
#[derive(Clone, Debug, PartialEq)]
pub struct LoginParams {
    pub return_url: Option<String>,
}

/// The query parameters of the callback endpoint.
#[derive(Clone, Debug, PartialEq)]
pub struct CallbackParams {
    pub state: Option<String>,
    pub code: Option<String>,
}

/// The provider credentials as the environment holds them: each may be
/// missing.
#[derive(Clone, Debug, PartialEq)]
pub struct ProviderCredentials {
    pub client_id: Option<String>,
    pub client_secret: Option<String>,
}

} // verus!
