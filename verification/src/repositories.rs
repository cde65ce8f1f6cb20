//! What the stores hold and hand back: the rows of the three tables, how
//! a row becomes the record that the service works with, and what to do
//! about a user who may already be known.

use vstd::prelude::*;

use crate::models::NewSessionView;
use crate::models::PendingAuthorizationView;
use crate::models::SessionView;
use crate::models::UserModel;
use crate::models::UserSessionModel;
use crate::models::UserView;

verus! {

/// A stored pending authorization.
#[derive(Clone, Debug, PartialEq)]
pub struct Oauth2Record {
    pub id: uuid::Uuid,
    pub csrf_state: String,
    pub pkce_code_verifier: String,
    pub return_url: String,
}

impl View for Oauth2Record {
    type V = PendingAuthorizationView;

    open spec fn view(&self) -> PendingAuthorizationView {
        PendingAuthorizationView {
            csrf_state: self.csrf_state@,
            pkce_code_verifier: self.pkce_code_verifier@,
            return_url: self.return_url@,
        }
    }
}

/// A pending authorization to store.
#[derive(Clone, Debug, PartialEq)]
pub struct NewOauth2Record {
    pub csrf_state: String,
    pub pkce_code_verifier: String,
    pub return_url: String,
}

impl View for NewOauth2Record {
    type V = PendingAuthorizationView;

    open spec fn view(&self) -> PendingAuthorizationView {
        PendingAuthorizationView {
            csrf_state: self.csrf_state@,
            pkce_code_verifier: self.pkce_code_verifier@,
            return_url: self.return_url@,
        }
    }
}

/// A stored user.
#[derive(Clone, Debug, PartialEq)]
pub struct UserDb {
    pub id: uuid::Uuid,
    pub email: String,
}

impl View for UserDb {
    type V = UserView;

    open spec fn view(&self) -> UserView {
        UserView { id: self.id, email: self.email@ }
    }
}

/// A user to store.
#[derive(Clone, Debug, PartialEq)]
pub struct NewUserDb {
    pub email: String,
}

/// A stored session.
#[derive(Clone, Debug, PartialEq)]
pub struct UserSessionDb {
    pub id: uuid::Uuid,
    pub user_id: uuid::Uuid,
    pub session_token_p1: String,
    pub session_token_p2: String,
    pub created_at: i64,
    pub expires_at: i64,
}

impl View for UserSessionDb {
    type V = SessionView;

    open spec fn view(&self) -> SessionView {
        SessionView {
            id: self.id,
            user_id: self.user_id,
            session_token_p1: self.session_token_p1@,
            session_token_p2: self.session_token_p2@,
            created_at: self.created_at as int,
            expires_at: self.expires_at as int,
        }
    }
}

/// A session to store.
#[derive(Clone, Debug, PartialEq)]
pub struct NewUserSessionDb {
    pub user_id: uuid::Uuid,
    pub session_token_p1: String,
    pub session_token_p2: String,
    pub created_at: i64,
    pub expires_at: i64,
}

impl View for NewUserSessionDb {
    type V = NewSessionView;

    open spec fn view(&self) -> NewSessionView {
        NewSessionView {
            user_id: self.user_id,
            session_token_p1: self.session_token_p1@,
            session_token_p2: self.session_token_p2@,
            created_at: self.created_at as int,
            expires_at: self.expires_at as int,
        }
    }
}

/// Turns a stored user into the user that the service works with.
pub fn adapt_user_db_to_user_model(user_db: UserDb) -> (user: UserModel)
    ensures
        user@ == user_db@,
{
    UserModel { id: user_db.id, email: user_db.email }
}

/// Turns a stored session into the session that the service works with.
pub fn adapt_user_session_to_user_session_model(user_session: UserSessionDb) -> (session:
    UserSessionModel)
    ensures
        session@ == user_session@,
{
    UserSessionModel {
        id: user_session.id,
        user_id: user_session.user_id,
        session_token_p1: user_session.session_token_p1,
        session_token_p2: user_session.session_token_p2,
        created_at: user_session.created_at,
        expires_at: user_session.expires_at,
    }
}

/// What the callback needs of a consumed pending authorization: the PKCE
/// verifier and the return target, in that order.
pub fn consumed_parts(record: Oauth2Record) -> (parts: (String, String))
    ensures
        parts.0@ == record@.pkce_code_verifier,
        parts.1@ == record@.return_url,
{
    (record.pkce_code_verifier, record.return_url)
}

/// What to do about the user behind an email address.
#[derive(Clone, Debug, PartialEq)]
pub enum UserUpsert {
    /// The user is known under this identifier: store nothing.
    Existing(uuid::Uuid),
    /// The user is new: store this row and take the identifier it gets.
    Insert(NewUserDb),
}

/// What [`insert_if_not_exists`] decides for the user found under
/// `email`, if any.
pub open spec fn upsert_decision(
    existing_user: Option<UserDb>,
    email: Seq<char>,
    decision: UserUpsert,
) -> bool {
    match existing_user {
        Some(user) => decision == UserUpsert::Existing(user.id),
        None => decision matches UserUpsert::Insert(row) && row.email@ == email,
    }
}

/// Decides how a user comes by an identifier: a user already stored
/// under the exact email address keeps theirs and is not stored again;
/// any other is stored.
pub fn insert_if_not_exists(existing_user: Option<UserDb>, email: String) -> (decision:
    UserUpsert)
    ensures
        upsert_decision(existing_user, email@, decision),
{
    match existing_user {
        Some(user) => UserUpsert::Existing(user.id),
        None => UserUpsert::Insert(NewUserDb { email }),
    }
}

} // verus!
