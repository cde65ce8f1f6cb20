//! Sessions: how one is minted at login and when a presented secret is
//! still good for it.

use vstd::prelude::*;
use vstd::utf8::encode_utf8;

use crate::models::NewSessionView;
use crate::models::SessionView;
use crate::models::UserSessionModel;
use crate::repositories::NewUserSessionDb;
use crate::token::cookie_value;
use crate::token::is_session_secret;
use crate::token::law_secret_comparison;
use crate::token::lemma_session_secret_shape;
use crate::token::new_session_secret;
use crate::token::secret_matches;
use crate::token::secrets_match;
use crate::token::session_token;
use crate::token::set_cookie;
use crate::token::set_cookie_header;
use crate::token::SECRET_LENGTH;

verus! {

/// How long a session lasts, in seconds: 24 hours.
pub const SESSION_LIFETIME_SECONDS: i64 = 86400;

/// The session minted at `now` for `user_id` under the two secrets: it is
/// created at `now` and expires one lifetime later.
pub open spec fn new_session(
    user_id: uuid::Uuid,
    p1: Seq<char>,
    p2: Seq<char>,
    now: int,
) -> NewSessionView {
    NewSessionView {
        user_id,
        session_token_p1: p1,
        session_token_p2: p2,
        created_at: now,
        expires_at: now + SESSION_LIFETIME_SECONDS,
    }
}

/// A session is well formed when its secret has the declared length: the
/// sessions that [`issue_session`] issues are, and no other can be
/// opened.
pub open spec fn well_formed(session: SessionView) -> bool {
    encode_utf8(session.session_token_p2).len() == SECRET_LENGTH
}

/// Whether `presented` opens `session` at `now`: it matches the stored
/// secret and the session has not reached its expiry.
pub open spec fn session_grants(session: SessionView, presented: Seq<char>, now: int) -> bool {
    secret_matches(presented, session.session_token_p2) && session.expires_at > now
}

/// `chrono::Utc::now` and `chrono::DateTime::timestamp`: the seconds
/// since the Unix epoch on this machine's clock. Whatever the clock says,
/// the dates that `chrono` can hold keep the count well inside 48 bits.
/// `chrono` panics on a clock set before the epoch.
#[verifier::external_body]
pub(crate) fn current_timestamp() -> (now: i64)
    ensures
        -0x1_0000_0000_0000 < now < 0x1_0000_0000_0000,
{
    chrono::Utc::now().timestamp()
}

/// Mints the session that `user_id` holds from `now` on.
pub fn mint_session(user_id: uuid::Uuid, p1: String, p2: String, now: i64) -> (session:
    NewUserSessionDb)
    requires
        now + SESSION_LIFETIME_SECONDS <= i64::MAX,
    ensures
        session@ == new_session(user_id, p1@, p2@, now as int),
{
    NewUserSessionDb {
        user_id,
        session_token_p1: p1,
        session_token_p2: p2,
        created_at: now,
        expires_at: now + SESSION_LIFETIME_SECONDS,
    }
}

/// Whether the secret that a cookie presents opens the session at `now`.
/// The secret is compared before the clock is looked at.
pub fn session_is_valid(session: &UserSessionModel, presented: &str, now: i64) -> (valid: bool)
    ensures
        valid == session_grants(session@, presented@, now as int),
{
    secrets_match(presented, session.session_token_p2.as_str()) && session.expires_at > now
}

/// A freshly minted session together with the `Set-Cookie` header that
/// hands its token to the browser.
#[derive(Clone, Debug, PartialEq)]
pub struct IssuedSession {
    pub session: NewUserSessionDb,
    pub set_cookie: String,
}

impl IssuedSession {
    /// The session belongs to `user_id`, lasts one lifetime from its
    /// creation, holds two fresh secrets, and the header carries their
    /// token.
    pub open spec fn issued_to(self, user_id: uuid::Uuid) -> bool {
        &&& is_session_secret(self.session@.session_token_p1)
        &&& is_session_secret(self.session@.session_token_p2)
        &&& self.session@ == new_session(
            user_id,
            self.session@.session_token_p1,
            self.session@.session_token_p2,
            self.session@.created_at,
        )
        &&& self.set_cookie@ == set_cookie_header(
            cookie_value(self.session@.session_token_p1, self.session@.session_token_p2),
        )
    }
}

/// Issues a session to `user_id`: draws two independent secrets, reads
/// the clock, and prepares the cookie.
pub fn issue_session(user_id: uuid::Uuid) -> (issued: IssuedSession)
    ensures
        issued.issued_to(user_id),
{
    let p1 = new_session_secret();
    let p2 = new_session_secret();
    let token = session_token(p1.as_str(), p2.as_str());
    let header = set_cookie(token.as_str());
    let now = current_timestamp();
    IssuedSession { session: mint_session(user_id, p1, p2, now), set_cookie: header }
}

/// Before its expiry, a well-formed session opens to its own secret and
/// to nothing else: not to a text of another length, nor to one of the
/// same length that differs in any byte.
pub proof fn law_session_opens_to_its_secret_only(
    session: SessionView,
    presented: Seq<char>,
    now: int,
)
    requires
        well_formed(session),
        now < session.expires_at,
    ensures
        session_grants(session, session.session_token_p2, now),
        presented != session.session_token_p2 ==> !session_grants(session, presented, now),
        encode_utf8(presented) != encode_utf8(session.session_token_p2) ==> !session_grants(
            session,
            presented,
            now,
        ),
        session_grants(session, presented, now) ==> encode_utf8(presented).len()
            == SECRET_LENGTH,
{
    law_secret_comparison(session.session_token_p2, presented);
}

/// A session is well formed as soon as its secret has the shape in which
/// secrets are drawn; a session whose secret has another length opens to
/// nothing at all.
pub proof fn law_only_well_formed_sessions_open(
    session: SessionView,
    presented: Seq<char>,
    now: int,
)
    ensures
        is_session_secret(session.session_token_p2) ==> well_formed(session),
        !well_formed(session) ==> !session_grants(session, presented, now),
{
    if is_session_secret(session.session_token_p2) {
        lemma_session_secret_shape(session.session_token_p2);
    }
}

/// A session that has reached its expiry opens for no secret, not even
/// its own.
pub proof fn law_expired_session_grants_nothing(
    session: SessionView,
    presented: Seq<char>,
    now: int,
)
    requires
        session.expires_at <= now,
    ensures
        !session_grants(session, presented, now),
        !session_grants(session, session.session_token_p2, now),
{
}

} // verus!
