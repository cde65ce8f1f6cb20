//! The profile endpoint, an example of a protected route.

use vstd::prelude::*;

use crate::errors::AuthError;
use crate::models::UserData;

verus! {

/// What the profile endpoint answers: the email address of the caller.
pub open spec fn profile_of(user_data: Option<UserData>) -> Result<Seq<char>, AuthError> {
    match user_data {
        Some(identity) => Ok(identity@.user_email),
        None => Err(AuthError::Unauthenticated),
    }
}

/// The view of what the profile endpoint answers.
pub open spec fn profile_view(r: Result<String, AuthError>) -> Result<Seq<char>, AuthError> {
    match r {
        Ok(email) => Ok(email@),
        Err(e) => Err(e),
    }
}

/// Answers with the caller's email address. Behind the access gate a
/// caller always has an identity.
pub fn profile(user_data: Option<UserData>) -> (r: Result<String, AuthError>)
    ensures
        profile_view(r) == profile_of(user_data),
{
    match user_data {
        Some(user_data) => Ok(user_data.user_email),
        None => Err(AuthError::Unauthenticated),
    }
}

} // verus!
