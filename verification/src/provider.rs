//! The identity provider's client: where its endpoints are, where it
//! sends the browser back to, how an authorization request is drawn up
//! and how the provider's account of the user is read.

use vstd::prelude::*;
use vstd::string::StrSliceExecFns;
use vstd::string::StringExecFns;

use crate::errors::AuthFailure;
use crate::models::text_view;
use crate::models::ProviderCredentials;
use crate::text::after_first;
use crate::text::before_first;
use crate::text::is_first;
use crate::text::lemma_absent;
use crate::text::lemma_first;
use crate::text::split_at_first;

verus! {

/// Environment variable that holds the provider's client identifier.
pub const CLIENT_ID_VARIABLE: &'static str = "GOOGLE_CLIENT_ID";

/// Environment variable that holds the provider's client secret.
pub const CLIENT_SECRET_VARIABLE: &'static str = "GOOGLE_CLIENT_SECRET";

/// The provider's authorization endpoint.
pub const AUTHORIZATION_URL: &'static str = "https://accounts.google.com/o/oauth2/v2/auth";

/// The provider's token endpoint.
pub const TOKEN_URL: &'static str = "https://www.googleapis.com/oauth2/v3/token";

/// The provider's token revocation endpoint.
pub const REVOCATION_URL: &'static str = "https://oauth2.googleapis.com/revoke";

/// The scope that discloses the user's email address.
pub const EMAIL_SCOPE: &'static str = "https://www.googleapis.com/auth/userinfo.email";

/// The provider's user-info endpoint, up to the access token.
pub const USERINFO_URL: &'static str = "https://www.googleapis.com/oauth2/v2/userinfo?oauth_token=";

/// Path of this service's callback endpoint.
pub const CALLBACK_PATH: &'static str = "/api/auth/oauth_return";

/// Member of the user-info document that holds the email address.
pub const EMAIL_MEMBER: &'static str = "email";

/// Member of the user-info document that says whether the provider has
/// verified the email address.
pub const VERIFIED_EMAIL_MEMBER: &'static str = "verified_email";

/// The character that parts the name of a host from its port.
pub const PORT_SEPARATOR: char = ':';

/// The name of a host: what stands before its port, all of it where it
/// names no port.
pub open spec fn host_name(hostname: Seq<char>) -> Seq<char> {
    before_first(hostname, PORT_SEPARATOR)
}

/// The port of a host: what stands behind its first port separator,
/// nothing where it has none.
pub open spec fn host_port(hostname: Seq<char>) -> Seq<char> {
    after_first(hostname, PORT_SEPARATOR)
}

/// A text of decimal digits, as a port is written.
pub open spec fn is_port(text: Seq<char>) -> bool {
    forall|i: int| 0 <= i < text.len() ==> '0' <= #[trigger] text[i] && text[i] <= '9'
}

/// A host that names this machine: its name, without the port, is
/// `localhost` or `127.0.0.1`, and what stands behind the name is a port
/// and nothing else. Only such a host is reached over insecure
/// transport; a public name that merely begins like one is not.
pub open spec fn is_loopback(hostname: Seq<char>) -> bool {
    &&& host_name(hostname) == "localhost"@ || host_name(hostname) == "127.0.0.1"@
    &&& is_port(host_port(hostname))
}

/// The transport by which the provider sends the browser back.
pub open spec fn callback_scheme(hostname: Seq<char>) -> Seq<char> {
    if is_loopback(hostname) {
        "http"@
    } else {
        "https"@
    }
}

/// Where the provider sends the browser back to.
pub open spec fn callback_url(hostname: Seq<char>) -> Seq<char> {
    callback_scheme(hostname) + "://"@ + hostname + CALLBACK_PATH@
}

/// Where the verified email address of the holder of `access_token` is
/// asked for.
pub open spec fn userinfo_request_url(access_token: Seq<char>) -> Seq<char> {
    USERINFO_URL@ + access_token
}

/// A character of the URL-safe base64 alphabet.
pub open spec fn is_url_safe_base64(c: char) -> bool {
    ||| ('A' <= c && c <= 'Z')
    ||| ('a' <= c && c <= 'z')
    ||| ('0' <= c && c <= '9')
    ||| c == '-'
    ||| c == '_'
}

/// A text of `length` characters of the URL-safe base64 alphabet.
pub open spec fn is_url_safe_token(s: Seq<char>, length: nat) -> bool {
    s.len() == length && forall|i: int| 0 <= i < s.len() ==> is_url_safe_base64(#[trigger] s[i])
}

/// Whether `oauth2::AuthUrl::new` accepts the text as a URL.
pub uninterp spec fn is_authorization_url(url: Seq<char>) -> bool;

/// Whether `oauth2::TokenUrl::new` accepts the text as a URL.
pub uninterp spec fn is_token_url(url: Seq<char>) -> bool;

/// Whether `oauth2::RedirectUrl::new` accepts the text as a URL.
pub uninterp spec fn is_redirect_url(url: Seq<char>) -> bool;

/// Whether `oauth2::RevocationUrl::new` accepts the text as a URL.
pub uninterp spec fn is_revocation_url(url: Seq<char>) -> bool;

/// What `serde_json::from_str` makes of `body`, read as a user-info
/// document: nothing where `body` is not JSON; else the string it holds
/// under `email_member` and the boolean it holds under `verified_member`,
/// each absent where the document is no object, lacks the member, or
/// holds a value of another kind there.
pub uninterp spec fn user_info_fields(
    body: Seq<char>,
    email_member: Seq<char>,
    verified_member: Seq<char>,
) -> Option<(Option<Seq<char>>, Option<bool>)>;

/// `oauth2::AuthUrl::new`: succeeds on the texts that are URLs.
#[verifier::external_body]
fn authorization_url_parses(url: &str) -> (ok: bool)
    ensures
        ok == is_authorization_url(url@),
{
    oauth2::AuthUrl::new(url.to_owned()).is_ok()
}

/// `oauth2::TokenUrl::new`: succeeds on the texts that are URLs.
#[verifier::external_body]
fn token_url_parses(url: &str) -> (ok: bool)
    ensures
        ok == is_token_url(url@),
{
    oauth2::TokenUrl::new(url.to_owned()).is_ok()
}

/// `oauth2::RedirectUrl::new`: succeeds on the texts that are URLs.
#[verifier::external_body]
fn redirect_url_parses(url: &str) -> (ok: bool)
    ensures
        ok == is_redirect_url(url@),
{
    oauth2::RedirectUrl::new(url.to_owned()).is_ok()
}

/// `oauth2::RevocationUrl::new`: succeeds on the texts that are URLs.
#[verifier::external_body]
fn revocation_url_parses(url: &str) -> (ok: bool)
    ensures
        ok == is_revocation_url(url@),
{
    oauth2::RevocationUrl::new(url.to_owned()).is_ok()
}

/// The provider's client: credentials and endpoints, as texts.
#[derive(Clone, Debug, PartialEq)]
pub struct ProviderClient {
    pub client_id: String,
    pub client_secret: String,
    pub auth_url: String,
    pub token_url: String,
    pub redirect_url: String,
    pub revocation_url: String,
}

pub struct ProviderClientView {
    pub client_id: Seq<char>,
    pub client_secret: Seq<char>,
    pub auth_url: Seq<char>,
    pub token_url: Seq<char>,
    pub redirect_url: Seq<char>,
    pub revocation_url: Seq<char>,
}

impl View for ProviderClient {
    type V = ProviderClientView;

    open spec fn view(&self) -> ProviderClientView {
        ProviderClientView {
            client_id: self.client_id@,
            client_secret: self.client_secret@,
            auth_url: self.auth_url@,
            token_url: self.token_url@,
            redirect_url: self.redirect_url@,
            revocation_url: self.revocation_url@,
        }
    }
}

impl ProviderClientView {
    /// Every endpoint of the client is a URL.
    pub open spec fn valid(self) -> bool {
        &&& is_authorization_url(self.auth_url)
        &&& is_token_url(self.token_url)
        &&& is_redirect_url(self.redirect_url)
        &&& is_revocation_url(self.revocation_url)
    }
}

/// Where an identity provider is reached.
#[derive(Clone, Debug, PartialEq)]
pub struct ProviderEndpoints {
    pub auth_url: String,
    pub token_url: String,
    pub revocation_url: String,
}

pub struct ProviderEndpointsView {
    pub auth_url: Seq<char>,
    pub token_url: Seq<char>,
    pub revocation_url: Seq<char>,
}

impl View for ProviderEndpoints {
    type V = ProviderEndpointsView;

    open spec fn view(&self) -> ProviderEndpointsView {
        ProviderEndpointsView {
            auth_url: self.auth_url@,
            token_url: self.token_url@,
            revocation_url: self.revocation_url@,
        }
    }
}

/// The endpoints of the provider that this service logs in with.
pub open spec fn default_endpoints() -> ProviderEndpointsView {
    ProviderEndpointsView {
        auth_url: AUTHORIZATION_URL@,
        token_url: TOKEN_URL@,
        revocation_url: REVOCATION_URL@,
    }
}

/// The client that serves `hostname` at the given endpoints under the
/// given credentials, or why there is none. The checks run in this order:
/// client identifier, client secret, authorization endpoint, token
/// endpoint, redirect URL, revocation endpoint.
pub open spec fn client_at(
    endpoints: ProviderEndpointsView,
    hostname: Seq<char>,
    client_id: Option<Seq<char>>,
    client_secret: Option<Seq<char>>,
) -> Result<ProviderClientView, AuthFailure> {
    if client_id is None {
        Err(AuthFailure::MissingClientId)
    } else if client_secret is None {
        Err(AuthFailure::MissingClientSecret)
    } else if !is_authorization_url(endpoints.auth_url) {
        Err(AuthFailure::InvalidAuthorizationUrl)
    } else if !is_token_url(endpoints.token_url) {
        Err(AuthFailure::InvalidTokenUrl)
    } else if !is_redirect_url(callback_url(hostname)) {
        Err(AuthFailure::InvalidRedirectUrl)
    } else if !is_revocation_url(endpoints.revocation_url) {
        Err(AuthFailure::InvalidRevocationUrl)
    } else {
        Ok(
            ProviderClientView {
                client_id: client_id->0,
                client_secret: client_secret->0,
                auth_url: endpoints.auth_url,
                token_url: endpoints.token_url,
                redirect_url: callback_url(hostname),
                revocation_url: endpoints.revocation_url,
            },
        )
    }
}

/// The client that serves `hostname` under the given credentials, or why
/// there is none.
pub open spec fn client_for(
    hostname: Seq<char>,
    client_id: Option<Seq<char>>,
    client_secret: Option<Seq<char>>,
) -> Result<ProviderClientView, AuthFailure> {
    client_at(default_endpoints(), hostname, client_id, client_secret)
}

/// The view of the outcome of building a client.
pub open spec fn client_result_view(r: Result<ProviderClient, AuthFailure>) -> Result<
    ProviderClientView,
    AuthFailure,
> {
    match r {
        Ok(c) => Ok(c@),
        Err(e) => Err(e),
    }
}

/// What follows the name of this machine decides: the name alone, or the
/// name and a port, is this machine; the name with anything else behind
/// it, such as a further label of a public name, is not.
pub proof fn law_loopback_is_the_whole_name(suffix: Seq<char>)
    ensures
        is_loopback("localhost"@ + suffix) <==> (suffix.len() == 0 || (suffix[0]
            == PORT_SEPARATOR && is_port(suffix.skip(1)))),
        is_loopback("127.0.0.1"@ + suffix) <==> (suffix.len() == 0 || (suffix[0]
            == PORT_SEPARATOR && is_port(suffix.skip(1)))),
{
    reveal_strlit("localhost");
    reveal_strlit("127.0.0.1");
    lemma_name_then_suffix("localhost"@, suffix);
    lemma_name_then_suffix("127.0.0.1"@, suffix);
}

/// The name and port of a host that is a separator-free `name` and a
/// `suffix`: `name` and what follows the separator where the suffix is
/// empty or begins with one, a longer name otherwise.
proof fn lemma_name_then_suffix(name: Seq<char>, suffix: Seq<char>)
    requires
        forall|j: int| 0 <= j < name.len() ==> #[trigger] name[j] != PORT_SEPARATOR,
    ensures
        suffix.len() == 0 ==> host_name(name + suffix) == name && host_port(name + suffix)
            == Seq::<char>::empty(),
        suffix.len() > 0 && suffix[0] == PORT_SEPARATOR ==> host_name(name + suffix) == name
            && host_port(name + suffix) == suffix.skip(1),
        suffix.len() > 0 && suffix[0] != PORT_SEPARATOR ==> host_name(name + suffix).len()
            > name.len(),
{
    let hostname = name + suffix;
    let n = name.len() as int;
    assert forall|j: int| 0 <= j < n implies #[trigger] hostname[j] != PORT_SEPARATOR by {
        assert(hostname[j] == name[j]);
    }
    if suffix.len() == 0 {
        assert(hostname =~= name);
        lemma_absent(hostname, PORT_SEPARATOR);
    } else if suffix[0] == PORT_SEPARATOR {
        assert(hostname[n] == suffix[0]);
        assert(is_first(hostname, PORT_SEPARATOR, n));
        lemma_first(hostname, PORT_SEPARATOR, n);
        assert(hostname.take(n) =~= name);
        assert(hostname.skip(n + 1) =~= suffix.skip(1));
    } else {
        assert(hostname[n] == suffix[0]);
        if exists|i: int| is_first(hostname, PORT_SEPARATOR, i) {
            let k = choose|i: int| is_first(hostname, PORT_SEPARATOR, i);
            if k <= n {
                assert(hostname[k] != PORT_SEPARATOR);
            }
            assert(hostname.take(k).len() == k);
        }
    }
}

/// Insecure transport is chosen for a host that names this machine and
/// for no other.
pub proof fn law_insecure_transport_only_for_this_machine(hostname: Seq<char>)
    ensures
        is_loopback(hostname) ==> callback_url(hostname) == "http://"@ + hostname
            + CALLBACK_PATH@,
        !is_loopback(hostname) ==> callback_url(hostname) == "https://"@ + hostname
            + CALLBACK_PATH@,
{
    reveal_strlit("http");
    reveal_strlit("https");
    reveal_strlit("://");
    reveal_strlit("http://");
    reveal_strlit("https://");
    assert("http"@ + "://"@ =~= "http://"@);
    assert("https"@ + "://"@ =~= "https://"@);
}

/// Whether a text is made of decimal digits.
fn is_digits(text: &str) -> (digits: bool)
    ensures
        digits == is_port(text@),
{
    let mut i: usize = 0;
    let n = text.unicode_len();
    for c in it: text.chars()
        invariant
            i == it.index(),
            it.seq() == text@,
            text@.len() == n,
            forall|j: int| 0 <= j < i ==> '0' <= #[trigger] text@[j] && text@[j] <= '9',
    {
        assert(text@[i as int] == c);
        if c < '0' || c > '9' {
            return false;
        }
        i = i + 1;
    }
    true
}

/// Whether a host names this machine.
pub fn is_loopback_host(hostname: &str) -> (loopback: bool)
    ensures
        loopback == is_loopback(hostname@),
{
    let (name, port) = split_at_first(hostname, PORT_SEPARATOR);
    let localhost = "localhost".to_owned();
    let address = "127.0.0.1".to_owned();
    (name == localhost || name == address) && is_digits(port.as_str())
}

/// The URL that the provider redirects the browser to after the user has
/// decided: insecure transport for a host that names this machine, with
/// or without a port, secure transport for every other.
pub fn redirect_url_for(hostname: &str) -> (url: String)
    ensures
        url@ == callback_url(hostname@),
{
    let scheme = if is_loopback_host(hostname) {
        "http"
    } else {
        "https"
    };
    let url = scheme.to_owned().concat("://").concat(hostname).concat(CALLBACK_PATH);
    assert(url@ =~= callback_url(hostname@));
    url
}

/// The endpoints of the provider that this service logs in with.
pub fn provider_endpoints() -> (endpoints: ProviderEndpoints)
    ensures
        endpoints@ == default_endpoints(),
{
    ProviderEndpoints {
        auth_url: AUTHORIZATION_URL.to_owned(),
        token_url: TOKEN_URL.to_owned(),
        revocation_url: REVOCATION_URL.to_owned(),
    }
}

/// Sets up a client of the provider at `endpoints` for the host that
/// received the request.
pub fn client_with(
    endpoints: ProviderEndpoints,
    hostname: String,
    credentials: ProviderCredentials,
) -> (client: Result<ProviderClient, AuthFailure>)
    ensures
        client_result_view(client) == client_at(
            endpoints@,
            hostname@,
            text_view(credentials.client_id),
            text_view(credentials.client_secret),
        ),
        client matches Ok(c) ==> c@.valid(),
{
    let client_id = match credentials.client_id {
        Some(id) => id,
        None => {
            return Err(AuthFailure::MissingClientId);
        },
    };
    let client_secret = match credentials.client_secret {
        Some(secret) => secret,
        None => {
            return Err(AuthFailure::MissingClientSecret);
        },
    };
    if !authorization_url_parses(endpoints.auth_url.as_str()) {
        return Err(AuthFailure::InvalidAuthorizationUrl);
    }
    if !token_url_parses(endpoints.token_url.as_str()) {
        return Err(AuthFailure::InvalidTokenUrl);
    }
    let redirect_url = redirect_url_for(hostname.as_str());
    if !redirect_url_parses(redirect_url.as_str()) {
        return Err(AuthFailure::InvalidRedirectUrl);
    }
    if !revocation_url_parses(endpoints.revocation_url.as_str()) {
        return Err(AuthFailure::InvalidRevocationUrl);
    }
    Ok(
        ProviderClient {
            client_id,
            client_secret,
            auth_url: endpoints.auth_url,
            token_url: endpoints.token_url,
            redirect_url,
            revocation_url: endpoints.revocation_url,
        },
    )
}

/// Sets up the provider's client for the host that received the request.
pub fn get_client(hostname: String, credentials: ProviderCredentials) -> (client: Result<
    ProviderClient,
    AuthFailure,
>)
    ensures
        client_result_view(client) == client_for(
            hostname@,
            text_view(credentials.client_id),
            text_view(credentials.client_secret),
        ),
        client matches Ok(c) ==> c@.valid(),
{
    client_with(provider_endpoints(), hostname, credentials)
}

/// The authorization URL that `oauth2` builds for a client with one
/// scope, a CSRF token and the PKCE challenge of a verifier: the
/// authorization endpoint with the request's parameters in its query.
pub uninterp spec fn authorization_url(
    auth_url: Seq<char>,
    client_id: Seq<char>,
    redirect_url: Seq<char>,
    scope: Seq<char>,
    csrf_state: Seq<char>,
    pkce_code_verifier: Seq<char>,
) -> Seq<char>;

/// What a login attempt starts with: where to send the browser, the CSRF
/// token that binds the attempt to its callback, and the PKCE verifier
/// that the token exchange will need.
#[derive(Clone, Debug, PartialEq)]
pub struct AuthorizationRequest {
    pub authorize_url: String,
    pub csrf_state: String,
    pub pkce_code_verifier: String,
}

/// Length of a CSRF token: 128 random bits in URL-safe base64.
pub const CSRF_TOKEN_LENGTH: usize = 22;

/// Length of a PKCE verifier: 256 random bits in URL-safe base64.
pub const PKCE_VERIFIER_LENGTH: usize = 43;

impl AuthorizationRequest {
    /// The token and the verifier have the shape in which they are drawn,
    /// and the URL is the client's authorization URL for the email scope
    /// with that token and the challenge of that verifier.
    pub open spec fn drawn_for(self, client: ProviderClientView) -> bool {
        &&& is_url_safe_token(self.csrf_state@, CSRF_TOKEN_LENGTH as nat)
        &&& is_url_safe_token(self.pkce_code_verifier@, PKCE_VERIFIER_LENGTH as nat)
        &&& self.authorize_url@ == authorization_url(
            client.auth_url,
            client.client_id,
            client.redirect_url,
            EMAIL_SCOPE@,
            self.csrf_state@,
            self.pkce_code_verifier@,
        )
    }
}

/// `oauth2::CsrfToken::new_random`: draws a CSRF token of 16 random
/// bytes, written in URL-safe base64 without padding.
#[verifier::external_body]
fn new_csrf_token() -> (token: String)
    ensures
        is_url_safe_token(token@, CSRF_TOKEN_LENGTH as nat),
{
    oauth2::CsrfToken::new_random().secret().clone()
}

/// `oauth2::PkceCodeChallenge::new_random_sha256`: draws a PKCE verifier
/// of 32 random bytes, written in URL-safe base64 without padding.
#[verifier::external_body]
fn new_pkce_verifier() -> (verifier: String)
    ensures
        is_url_safe_token(verifier@, PKCE_VERIFIER_LENGTH as nat),
{
    oauth2::PkceCodeChallenge::new_random_sha256().1.secret().clone()
}

/// `oauth2::Client::authorize_url`, then `add_scope`, `set_pkce_challenge`
/// and `url` of the request it starts, for the challenge that
/// `oauth2::PkceCodeChallenge::from_code_verifier_sha256` derives from the
/// verifier: the authorization URL. It depends on the authorization
/// endpoint, the client identifier, the redirect URL, the scope, the CSRF
/// token and the verifier, and on nothing else.
#[verifier::external_body]
fn authorize(client: &ProviderClient, scope: &str, csrf_state: &str, pkce_code_verifier: &str) -> (url:
    String)
    requires
        client@.valid(),
        is_url_safe_token(pkce_code_verifier@, PKCE_VERIFIER_LENGTH as nat),
    ensures
        url@ == authorization_url(
            client@.auth_url,
            client@.client_id,
            client@.redirect_url,
            scope@,
            csrf_state@,
            pkce_code_verifier@,
        ),
{
    let state = oauth2::CsrfToken::new(csrf_state.to_owned());
    let verifier = oauth2::PkceCodeVerifier::new(pkce_code_verifier.to_owned());
    let (url, _) = oauth2::basic::BasicClient::new(
        oauth2::ClientId::new(client.client_id.clone()),
        Some(oauth2::ClientSecret::new(client.client_secret.clone())),
        oauth2::AuthUrl::new(client.auth_url.clone()).unwrap(),
        Some(oauth2::TokenUrl::new(client.token_url.clone()).unwrap()),
    ).set_redirect_uri(oauth2::RedirectUrl::new(client.redirect_url.clone()).unwrap())
        .authorize_url(move || state)
        .add_scope(oauth2::Scope::new(scope.to_owned()))
        .set_pkce_challenge(oauth2::PkceCodeChallenge::from_code_verifier_sha256(&verifier))
        .url();
    url.as_str().to_owned()
}

/// What [`build_authorization_request`] returns for a host and
/// credentials: a request drawn for their client where there is one,
/// else the reason there is none.
pub open spec fn authorization_outcome(
    hostname: Seq<char>,
    client_id: Option<Seq<char>>,
    client_secret: Option<Seq<char>>,
    r: Result<AuthorizationRequest, AuthFailure>,
) -> bool {
    match client_for(hostname, client_id, client_secret) {
        Ok(client) => r matches Ok(request) && request.drawn_for(client),
        Err(e) => r == Err::<AuthorizationRequest, AuthFailure>(e),
    }
}

/// Draws up an authorization request for the host that received the
/// login request: an authorization URL that asks for the email scope and
/// redirects back to this host, with a fresh CSRF token and a fresh PKCE
/// verifier.
pub fn build_authorization_request(hostname: String, credentials: ProviderCredentials) -> (r:
    Result<AuthorizationRequest, AuthFailure>)
    ensures
        authorization_outcome(
            hostname@,
            text_view(credentials.client_id),
            text_view(credentials.client_secret),
            r,
        ),
{
    match get_client(hostname, credentials) {
        Ok(client) => {
            let pkce_code_verifier = new_pkce_verifier();
            let csrf_state = new_csrf_token();
            let authorize_url = authorize(
                &client,
                EMAIL_SCOPE,
                csrf_state.as_str(),
                pkce_code_verifier.as_str(),
            );
            Ok(AuthorizationRequest { authorize_url, csrf_state, pkce_code_verifier })
        },
        Err(e) => Err(e),
    }
}

/// The URL at which the provider tells whose access token this is.
pub fn userinfo_url(access_token: &str) -> (url: String)
    ensures
        url@ == userinfo_request_url(access_token@),
{
    USERINFO_URL.to_owned().concat(access_token)
}

/// What the flow reads of the provider's user-info document.
#[derive(Clone, Debug, PartialEq)]
pub struct UserInfo {
    pub email: Option<String>,
    pub verified_email: Option<bool>,
}

/// The view of a user-info document that may not have been understood.
pub open spec fn user_info_view(info: Option<UserInfo>) -> Option<(Option<Seq<char>>, Option<bool>)> {
    match info {
        Some(i) => Some((text_view(i.email), i.verified_email)),
        None => None,
    }
}

/// `serde_json::from_str` into a `serde_json::Value`, then
/// `serde_json::Value::get`, `as_str` and `as_bool`: reads a JSON text
/// and picks the string under one member and the boolean under another.
#[verifier::external_body]
fn read_user_info(body: &str, email_member: &str, verified_member: &str) -> (info: Option<
    UserInfo,
>)
    ensures
        user_info_view(info) == user_info_fields(body@, email_member@, verified_member@),
{
    let document: serde_json::Value = serde_json::from_str(body).ok()?;
    Some(
        UserInfo {
            email: document.get(email_member).and_then(serde_json::Value::as_str).map(
                str::to_owned,
            ),
            verified_email: document.get(verified_member).and_then(serde_json::Value::as_bool),
        },
    )
}

/// The verified email address that a user-info document vouches for, or
/// why it vouches for none. The email address is looked for before the
/// verification flag.
pub open spec fn verified_email_of(info: Option<(Option<Seq<char>>, Option<bool>)>) -> Result<
    Seq<char>,
    AuthFailure,
> {
    match info {
        None => Err(AuthFailure::UserInfoMalformed),
        Some((None, _)) => Err(AuthFailure::UserInfoWithoutEmail),
        Some((Some(_), None)) => Err(AuthFailure::UserInfoWithoutVerification),
        Some((Some(email), Some(verified))) => if verified {
            Ok(email)
        } else {
            Err(AuthFailure::EmailNotVerified)
        },
    }
}

/// The view of an email address or the reason there is none.
pub open spec fn email_result_view(r: Result<String, AuthFailure>) -> Result<
    Seq<char>,
    AuthFailure,
> {
    match r {
        Ok(email) => Ok(email@),
        Err(e) => Err(e),
    }
}

/// Decides what a user-info document says: the email address, if the
/// provider has verified it.
pub fn verified_email(info: Option<UserInfo>) -> (r: Result<String, AuthFailure>)
    ensures
        email_result_view(r) == verified_email_of(user_info_view(info)),
{
    let info = match info {
        Some(info) => info,
        None => {
            return Err(AuthFailure::UserInfoMalformed);
        },
    };
    let email = match info.email {
        Some(email) => email,
        None => {
            return Err(AuthFailure::UserInfoWithoutEmail);
        },
    };
    match info.verified_email {
        Some(true) => Ok(email),
        Some(false) => Err(AuthFailure::EmailNotVerified),
        None => Err(AuthFailure::UserInfoWithoutVerification),
    }
}

/// Reads the body of the provider's user-info response and decides what
/// it says.
pub fn decode_user_info(body: &str) -> (r: Result<String, AuthFailure>)
    ensures
        email_result_view(r) == verified_email_of(
            user_info_fields(body@, EMAIL_MEMBER@, VERIFIED_EMAIL_MEMBER@),
        ),
{
    verified_email(read_user_info(body, EMAIL_MEMBER, VERIFIED_EMAIL_MEMBER))
}

} // verus!
