//! The statuses that the service answers with, the error taxonomy, and
//! its mapping to what a client is shown.

use vstd::prelude::*;
use vstd::string::StringExecFns;

verus! {

/// HTTP status of every redirect that the service answers with: to the
/// provider, to the landing page, to the return target after login, and
/// to the login endpoint.
pub const STATUS_FOUND: u16 = 302;

/// HTTP status sent with every authentication failure.
pub const STATUS_INTERNAL_SERVER_ERROR: u16 = 500;

/// HTTP status reserved for a resource that does not exist.
pub const STATUS_NOT_FOUND: u16 = 404;

/// A redirect on its way to the browser.
#[derive(Debug, Clone, PartialEq, Eq)]
pub struct Redirection {
    pub status: u16,
    pub location: String,
}

pub struct RedirectionView {
    pub status: u16,
    pub location: Seq<char>,
}

impl View for Redirection {
    type V = RedirectionView;

    open spec fn view(&self) -> RedirectionView {
        RedirectionView { status: self.status, location: self.location@ }
    }
}

/// The redirect that sends the browser to `location`: status 302 with
/// that location.
pub open spec fn redirection_to(location: Seq<char>) -> RedirectionView {
    RedirectionView { status: STATUS_FOUND, location }
}

/// Draws up the redirect that sends the browser to `location`.
pub fn redirect_to(location: String) -> (r: Redirection)
    ensures
        r@ == redirection_to(location@),
{
    Redirection { status: STATUS_FOUND, location }
}

/// What the persistence layer reports to the rest of the service.
#[derive(Debug, Clone, Copy, PartialEq, Eq, Structural)]
pub enum InfraError {
    InternalServerError,
    NotFound,
}

impl InfraError {
    /// The text shown for this error.
    pub open spec fn text(self) -> Seq<char> {
        match self {
            InfraError::NotFound => "Not found"@,
            InfraError::InternalServerError => "Internal server error"@,
        }
    }

    pub fn to_string(&self) -> (r: String)
        ensures
            r@ == self.text(),
    {
        match self {
            InfraError::NotFound => "Not found".to_owned(),
            InfraError::InternalServerError => "Internal server error".to_owned(),
        }
    }
}

/// A failure that can be reported as an [`InfraError`].
pub trait Error {
    /// The [`InfraError`] that stands for this failure.
    spec fn infra_error(&self) -> InfraError;

    fn as_infra_error(&self) -> (r: InfraError)
        ensures
            r == self.infra_error(),
    ;
}

/// What can go wrong between asking the connection pool for a connection
/// and reading the rows of a query.
#[derive(Debug, Clone, Copy, PartialEq, Eq, Structural)]
pub enum StorageFault {
    /// No connection could be had from the pool.
    PoolUnavailable,
    /// The task that ran the query was aborted or panicked.
    InteractionFailed,
    /// The query ran and matched no row.
    RowNotFound,
    /// The query failed for any other reason.
    QueryFailed,
}

impl Error for StorageFault {
    open spec fn infra_error(&self) -> InfraError {
        match self {
            StorageFault::RowNotFound => InfraError::NotFound,
            _ => InfraError::InternalServerError,
        }
    }

    fn as_infra_error(&self) -> (r: InfraError) {
        match self {
            StorageFault::RowNotFound => InfraError::NotFound,
            _ => InfraError::InternalServerError,
        }
    }
}

impl Error for &str {
    open spec fn infra_error(&self) -> InfraError {
        InfraError::InternalServerError
    }

    fn as_infra_error(&self) -> (r: InfraError) {
        InfraError::InternalServerError
    }
}

/// How the exchange of an authorization code for an access token can go
/// wrong.
#[derive(Debug, Clone, Copy, PartialEq, Eq, Structural)]
pub enum ExchangeFault {
    /// The task that ran the exchange off the request path did not
    /// complete.
    Aborted,
    /// The token endpoint refused, or could not be reached or understood.
    Failed,
}

/// How the request for the user's info can go wrong.
#[derive(Debug, Clone, Copy, PartialEq, Eq, Structural)]
pub enum FetchFault {
    /// The endpoint could not be reached.
    Unreachable,
    /// The response had no readable body.
    Unreadable,
}

/// Reports any adaptable failure as an [`InfraError`].
pub fn adapt_infra_error<T: Error>(error: T) -> (r: InfraError)
    ensures
        r == error.infra_error(),
{
    error.as_infra_error()
}

/// The four families of failure.
#[derive(Debug, Clone, Copy, PartialEq, Eq, Structural)]
pub enum ErrorClass {
    /// Provider credentials or endpoint URLs are missing or invalid.
    Configuration,
    /// The caller broke the login protocol; the attempt is rejected.
    Protocol,
    /// The identity provider could not be reached or answered badly.
    Upstream,
    /// The persistence layer failed.
    Storage,
}

/// The exact reason a login, a callback or an access check failed.
#[derive(Debug, Clone, Copy, PartialEq, Eq, Structural)]
pub enum AuthFailure {
    /// The provider's client identifier is not configured.
    MissingClientId,
    /// The provider's client secret is not configured.
    MissingClientSecret,
    InvalidAuthorizationUrl,
    InvalidTokenUrl,
    InvalidRedirectUrl,
    InvalidRevocationUrl,
    /// The identity slot that the session verifier fills is absent from
    /// the request: the access gate was installed without the verifier.
    IdentityNotAttached,
    /// The callback carries no `state` parameter.
    MissingState,
    /// The callback carries no `code` parameter.
    MissingCode,
    /// No pending authorization matches the callback's `state`: it was
    /// never issued, has been used, or is gone.
    ReplayOrExpired,
    /// The provider does not vouch for the email address.
    EmailNotVerified,
    /// A flow was handed an event it was not waiting for.
    UnexpectedEvent,
    /// The task that ran the token exchange did not complete.
    ExchangeAborted,
    /// The token endpoint refused, or could not be reached or understood.
    ExchangeFailed,
    /// The user-info endpoint could not be reached.
    UserInfoUnreachable,
    /// The user-info response had no readable body.
    UserInfoUnreadable,
    /// The user-info body is not JSON.
    UserInfoMalformed,
    /// The user-info document holds no `email` string.
    UserInfoWithoutEmail,
    /// The user-info document holds no `verified_email` boolean.
    UserInfoWithoutVerification,
    /// A storage operation failed.
    Storage(InfraError),
}

/// What a handler returns in place of a response when authentication
/// fails.
#[derive(Debug, Clone, Copy, PartialEq, Eq, Structural)]
pub enum AuthError {
    EmailAddressIsNotVerified,
    Unauthenticated,
    InfraError(InfraError),
}

/// The body and status of an error response, before the transport adds
/// the time at which it happened.
#[derive(Debug, Clone, PartialEq, Eq)]
pub struct ErrorResponse {
    pub status: u16,
    pub resource: String,
    pub message: String,
}

pub struct ErrorResponseView {
    pub status: u16,
    pub resource: Seq<char>,
    pub message: Seq<char>,
}

impl View for ErrorResponse {
    type V = ErrorResponseView;

    open spec fn view(&self) -> ErrorResponseView {
        ErrorResponseView {
            status: self.status,
            resource: self.resource@,
            message: self.message@,
        }
    }
}

impl ExchangeFault {
    /// The failure of the callback that this fault amounts to.
    pub open spec fn failure(self) -> AuthFailure {
        match self {
            ExchangeFault::Aborted => AuthFailure::ExchangeAborted,
            ExchangeFault::Failed => AuthFailure::ExchangeFailed,
        }
    }

    pub fn to_failure(&self) -> (r: AuthFailure)
        ensures
            r == self.failure(),
    {
        match self {
            ExchangeFault::Aborted => AuthFailure::ExchangeAborted,
            ExchangeFault::Failed => AuthFailure::ExchangeFailed,
        }
    }
}

impl FetchFault {
    /// The failure of the callback that this fault amounts to.
    pub open spec fn failure(self) -> AuthFailure {
        match self {
            FetchFault::Unreachable => AuthFailure::UserInfoUnreachable,
            FetchFault::Unreadable => AuthFailure::UserInfoUnreadable,
        }
    }

    pub fn to_failure(&self) -> (r: AuthFailure)
        ensures
            r == self.failure(),
    {
        match self {
            FetchFault::Unreachable => AuthFailure::UserInfoUnreachable,
            FetchFault::Unreadable => AuthFailure::UserInfoUnreadable,
        }
    }
}

impl AuthFailure {
    /// The family this failure belongs to.
    pub open spec fn class_of(self) -> ErrorClass {
        match self {
            AuthFailure::MissingClientId
            | AuthFailure::MissingClientSecret
            | AuthFailure::InvalidAuthorizationUrl
            | AuthFailure::InvalidTokenUrl
            | AuthFailure::InvalidRedirectUrl
            | AuthFailure::InvalidRevocationUrl
            | AuthFailure::IdentityNotAttached => ErrorClass::Configuration,
            AuthFailure::MissingState
            | AuthFailure::MissingCode
            | AuthFailure::ReplayOrExpired
            | AuthFailure::EmailNotVerified
            | AuthFailure::UnexpectedEvent => ErrorClass::Protocol,
            AuthFailure::ExchangeAborted
            | AuthFailure::ExchangeFailed
            | AuthFailure::UserInfoUnreachable
            | AuthFailure::UserInfoUnreadable
            | AuthFailure::UserInfoMalformed
            | AuthFailure::UserInfoWithoutEmail
            | AuthFailure::UserInfoWithoutVerification => ErrorClass::Upstream,
            AuthFailure::Storage(_) => ErrorClass::Storage,
        }
    }

    pub fn class(&self) -> (r: ErrorClass)
        ensures
            r == self.class_of(),
    {
        match self {
            AuthFailure::MissingClientId
            | AuthFailure::MissingClientSecret
            | AuthFailure::InvalidAuthorizationUrl
            | AuthFailure::InvalidTokenUrl
            | AuthFailure::InvalidRedirectUrl
            | AuthFailure::InvalidRevocationUrl
            | AuthFailure::IdentityNotAttached => ErrorClass::Configuration,
            AuthFailure::MissingState
            | AuthFailure::MissingCode
            | AuthFailure::ReplayOrExpired
            | AuthFailure::EmailNotVerified
            | AuthFailure::UnexpectedEvent => ErrorClass::Protocol,
            AuthFailure::ExchangeAborted
            | AuthFailure::ExchangeFailed
            | AuthFailure::UserInfoUnreachable
            | AuthFailure::UserInfoUnreadable
            | AuthFailure::UserInfoMalformed
            | AuthFailure::UserInfoWithoutEmail
            | AuthFailure::UserInfoWithoutVerification => ErrorClass::Upstream,
            AuthFailure::Storage(_) => ErrorClass::Storage,
        }
    }

    /// What a handler reports for this failure: an unverified email by
    /// name, a missing pending authorization as not found, a storage
    /// failure as the storage reported it, anything else as an internal
    /// error.
    pub open spec fn auth_error(self) -> AuthError {
        match self {
            AuthFailure::EmailNotVerified => AuthError::EmailAddressIsNotVerified,
            AuthFailure::ReplayOrExpired => AuthError::InfraError(InfraError::NotFound),
            AuthFailure::Storage(e) => AuthError::InfraError(e),
            _ => AuthError::InfraError(InfraError::InternalServerError),
        }
    }

    pub fn to_auth_error(&self) -> (r: AuthError)
        ensures
            r == self.auth_error(),
    {
        match self {
            AuthFailure::EmailNotVerified => AuthError::EmailAddressIsNotVerified,
            AuthFailure::ReplayOrExpired => AuthError::InfraError(InfraError::NotFound),
            AuthFailure::Storage(e) => AuthError::InfraError(*e),
            _ => AuthError::InfraError(InfraError::InternalServerError),
        }
    }
}

impl From<&str> for AuthError {
    fn from(err: &str) -> (r: AuthError) {
        AuthError::InfraError(err.as_infra_error())
    }
}

impl vstd::std_specs::convert::FromSpecImpl<&str> for AuthError {
    open spec fn obeys_from_spec() -> bool {
        true
    }

    open spec fn from_spec(err: &str) -> AuthError {
        AuthError::InfraError(InfraError::InternalServerError)
    }
}

/// The name under which authentication failures are reported.
pub open spec fn auth_resource() -> Seq<char> {
    "Auth"@
}

impl AuthError {
    /// The status of the response. Every authentication failure is
    /// answered with status 500, also where 401 or 403 would say more:
    /// clients that have come to rely on this keep working, and tell the
    /// failures apart by the message.
    pub open spec fn status_of(self) -> u16 {
        STATUS_INTERNAL_SERVER_ERROR
    }

    pub fn status_code(&self) -> (r: u16)
        ensures
            r == self.status_of(),
    {
        match self {
            AuthError::InfraError(_) => STATUS_INTERNAL_SERVER_ERROR,
            AuthError::EmailAddressIsNotVerified => STATUS_INTERNAL_SERVER_ERROR,
            AuthError::Unauthenticated => STATUS_INTERNAL_SERVER_ERROR,
        }
    }

    /// The human-readable message of the response.
    pub open spec fn message_of(self) -> Seq<char> {
        match self {
            AuthError::InfraError(e) => "Internal server error: "@ + e.text(),
            AuthError::EmailAddressIsNotVerified => "OAuth: email address is not verified"@,
            AuthError::Unauthenticated => "OAuth: no authenticated user"@,
        }
    }

    pub fn message(&self) -> (r: String)
        ensures
            r@ == self.message_of(),
    {
        match self {
            AuthError::InfraError(e) => {
                let detail = e.to_string();
                "Internal server error: ".to_owned().concat(detail.as_str())
            },
            AuthError::EmailAddressIsNotVerified => {
                "OAuth: email address is not verified".to_owned()
            },
            AuthError::Unauthenticated => "OAuth: no authenticated user".to_owned(),
        }
    }

    pub fn into_response(self) -> (r: ErrorResponse)
        ensures
            r@ == (ErrorResponseView {
                status: self.status_of(),
                resource: auth_resource(),
                message: self.message_of(),
            }),
    {
        ErrorResponse {
            status: self.status_code(),
            resource: "Auth".to_owned(),
            message: self.message(),
        }
    }
}

/// Every authentication failure is answered with status 500, whatever its
/// family; none is answered with 404.
pub proof fn law_auth_failures_are_internal_errors(failure: AuthFailure)
    ensures
        failure.auth_error().status_of() == 500,
        failure.auth_error().status_of() != STATUS_NOT_FOUND,
{
}

} // verus!
