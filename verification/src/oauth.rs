//! OAuth2 authorization-code flow coordination.
//!
//! `pre_auth` binds a fresh random CSRF token to a short-lived cookie and
//! redirects the browser to the provider's authorization endpoint with that
//! token as the `state` parameter. On callback, the stored cookie is
//! consumed — removed whether or not the check passes — and the echoed
//! `state` must equal it exactly before the authorization code may be
//! exchanged for an access token.

use vstd::prelude::*;
use vstd::string::*;

use crate::agent::opt_text;
use crate::config::Config;

verus! {

/// Lifetime of the state cookie, in seconds: a late callback after this is
/// treated as a state mismatch.
pub const STATE_COOKIE_MAX_AGE_SECS: u64 = 600;

/// Name of the cookie that carries the CSRF state between the two phases.
pub open spec fn state_cookie_name() -> Seq<char> {
    "gh_state"@
}

/// The provider's fixed authorization endpoint.
pub open spec fn github_auth_url() -> Seq<char> {
    "https://github.com/login/oauth/authorize"@
}

/// The provider's fixed token endpoint.
pub open spec fn github_token_url() -> Seq<char> {
    "https://github.com/login/oauth/access_token"@
}

/// The callback URL registered for this service, derived from its base URL.
pub open spec fn redirect_url_of(base: Seq<char>) -> Seq<char> {
    base + "/auth/gh/authorized"@
}

/// The fixed scope set requested from the provider.
pub open spec fn oauth_scopes() -> Seq<Seq<char>> {
    seq!["public_repo"@, "user:email"@]
}

/// Whether `url::Url::parse` (through which oauth2's `AuthUrl::new` and
/// `RedirectUrl::new` validate their argument) accepts `s`.
pub uninterp spec fn url_accepted(s: Seq<char>) -> bool;

/// The authorization URL that oauth2 builds from a client id, an
/// authorization endpoint, a redirect URL, a scope list and a state token.
pub uninterp spec fn authorize_url_of(
    client_id: Seq<char>,
    auth_url: Seq<char>,
    redirect_url: Seq<char>,
    scopes: Seq<Seq<char>>,
    state: Seq<char>,
) -> Seq<char>;

/// The callback query parameters echoed by the provider.
#[derive(Clone, Debug)]
pub struct AuthRequest {
    /// The single-use authorization code.
    pub code: String,
    /// The CSRF state token echoed back by the provider.
    pub state: String,
}

/// A cookie to be set on the response, as plain values.
#[derive(Clone, PartialEq, Eq, Debug)]
pub struct CookiePlan {
    pub name: String,
    pub value: String,
    pub path: String,
    pub max_age_secs: u64,
    pub same_site_lax: bool,
}

/// What `pre_auth` decides: the cookie to set and where to redirect.
#[derive(Clone, PartialEq, Eq, Debug)]
pub struct PreAuthPlan {
    pub cookie: CookiePlan,
    pub redirect_to: String,
}

/// Why the authorization URL could not be built from the configuration.
#[derive(Clone, Copy, Debug, PartialEq, Eq, Structural)]
pub enum OAuthConfigError {
    /// An endpoint or redirect URL was not accepted as a URL.
    InvalidUrl,
}

/// A plain HTTP response: status code and text body.
#[derive(Clone, Debug)]
pub struct HttpReply {
    pub status: u16,
    pub body: String,
}

/// What the callback handler must do after the state check.
pub enum PostAuthStep {
    /// Respond without attempting a token exchange.
    RejectState(HttpReply),
    /// Exchange this authorization code for an access token.
    Exchange(String),
}

/// Whether the presented `state` matches a stored cookie value: a match
/// requires a cookie to be present and equal, character for character.
pub open spec fn state_matches(stored: Option<Seq<char>>, presented: Seq<char>) -> bool {
    stored is Some && stored->0 == presented
}

/// The state cookie left behind by a callback attempt: none, since the
/// cookie is consumed whether or not the attempt succeeded.
pub open spec fn cookie_after_callback() -> Option<Seq<char>> {
    Option::None
}

/// The name under which the state cookie is set and read back.
pub fn state_cookie() -> (r: &'static str)
    ensures
        r@ == state_cookie_name(),
{
    "gh_state"
}

/// The provider's authorization endpoint.
pub fn github_auth_endpoint() -> (r: &'static str)
    ensures
        r@ == github_auth_url(),
{
    "https://github.com/login/oauth/authorize"
}

/// The provider's token endpoint.
pub fn github_token_endpoint() -> (r: &'static str)
    ensures
        r@ == github_token_url(),
{
    "https://github.com/login/oauth/access_token"
}

/// The outcome of reading the state cookie on a callback: the cookie must
/// be removed in every case, and the check passes only on an exact match.
pub struct StateCheck {
    /// Always true: the cookie is single-use, whatever the outcome.
    pub cookie_removed: bool,
    /// Whether a cookie was present and equals the echoed state.
    pub valid: bool,
}

/// Relies on `oauth2::CsrfToken::new_random`: a fresh random token, 16
/// bytes encoded as 22 characters of unpadded base64. Nothing is assumed
/// of its value beyond that length.
#[verifier::external_body]
fn new_csrf_token() -> (r: String)
    ensures
        r@.len() == 22,
{
    oauth2::CsrfToken::new_random().secret().clone()
}

/// Relies on oauth2: `AuthUrl::new` and `RedirectUrl::new` accept exactly
/// the strings `url::Url::parse` accepts, and
/// `Client::authorize_url(..).add_scope(..).url()` builds the authorization
/// URL from the client id, the endpoint, the redirect URL, the scopes and
/// the state token alone.
#[verifier::external_body]
fn build_authorize_url(client_id: &str, auth_url: &str, redirect_url: &str, scopes: &Vec<String>, state: &str) -> (r: Option<String>)
    ensures
        r is Some ==> url_accepted(auth_url@),
        r is Some ==> url_accepted(redirect_url@),
        r is None ==> (!url_accepted(auth_url@) || !url_accepted(redirect_url@)),
        r is Some ==> r->0@ == authorize_url_of(
            client_id@,
            auth_url@,
            redirect_url@,
            scopes.deep_view(),
            state@,
        ),
{
    let auth = oauth2::AuthUrl::new(auth_url.to_string()).ok()?;
    let redirect = oauth2::RedirectUrl::new(redirect_url.to_string()).ok()?;
    let client_id = oauth2::ClientId::new(client_id.to_string());
    let client = oauth2::basic::BasicClient::new(client_id, None, auth, None)
        .set_redirect_uri(redirect);
    let mut request = client.authorize_url(|| oauth2::CsrfToken::new(state.to_string()));
    for scope in scopes {
        request = request.add_scope(oauth2::Scope::new(scope.clone()));
    }
    Some(request.url().0.to_string())
}

/// The callback URL registered with the provider, derived from the base
/// URL this service is reachable under.
pub fn redirect_url_for(base_url: &String) -> (r: String)
    ensures
        r@ == redirect_url_of(base_url@),
{
    base_url.clone().concat("/auth/gh/authorized")
}

/// Reads the stored state cookie against the echoed `state`. The cookie is
/// consumed — removed whether or not the check passes — and the check
/// passes exactly when a cookie was present and equals the echoed state.
pub fn check_state(query: &AuthRequest, stored_state: &Option<String>) -> (r: StateCheck)
    ensures
        r.cookie_removed,
        r.valid == state_matches(opt_text(*stored_state), query.state@),
{
    let valid = match stored_state {
        None => false,
        Some(s) => s.eq(&query.state),
    };
    StateCheck { cookie_removed: true, valid }
}

/// Starts the flow: generates a random CSRF token, plans the short-lived
/// state cookie bound to it, and builds the authorization URL carrying the
/// same token as its `state`. No network call is made.
pub fn pre_auth(config: &Config) -> (r: Result<PreAuthPlan, OAuthConfigError>)
    ensures
        r is Ok <==> url_accepted(github_auth_url()) && url_accepted(
            redirect_url_of(config.base_url@),
        ),
        r is Err ==> r == Result::<PreAuthPlan, OAuthConfigError>::Err(OAuthConfigError::InvalidUrl),
        r is Ok ==> ({
            let plan = r->Ok_0;
            &&& plan.cookie.name@ == state_cookie_name()
            &&& plan.cookie.path@ == "/"@
            &&& plan.cookie.max_age_secs == STATE_COOKIE_MAX_AGE_SECS
            &&& plan.cookie.same_site_lax
            &&& plan.redirect_to@ == authorize_url_of(
                config.github_app_client_id@,
                github_auth_url(),
                redirect_url_of(config.base_url@),
                oauth_scopes(),
                plan.cookie.value@,
            )
        }),
{
    let token = new_csrf_token();
    let redirect_url = redirect_url_for(&config.base_url);
    let mut scopes: Vec<String> = Vec::new();
    scopes.push("public_repo".to_owned());
    scopes.push("user:email".to_owned());
    proof {
        assert(scopes.deep_view() =~= oauth_scopes());
    }
    match build_authorize_url(
        config.github_app_client_id.as_str(),
        github_auth_endpoint(),
        redirect_url.as_str(),
        &scopes,
        token.as_str(),
    ) {
        Some(url) => Ok(
            PreAuthPlan {
                cookie: CookiePlan {
                    name: state_cookie().to_owned(),
                    value: token,
                    path: "/".to_owned(),
                    max_age_secs: STATE_COOKIE_MAX_AGE_SECS,
                    same_site_lax: true,
                },
                redirect_to: url,
            },
        ),
        None => Err(OAuthConfigError::InvalidUrl),
    }
}

/// Decides the callback. The stored cookie is consumed in every case: the
/// first component of the result demands its removal whether or not the
/// check passed. The code is handed to the token exchange exactly when a
/// cookie was present and equals the echoed state; otherwise the reply is a
/// 400 and no exchange happens.
pub fn post_auth_plan(query: &AuthRequest, stored_state: &Option<String>) -> (r: (
    bool,
    PostAuthStep,
))
    ensures
        r.0,
        (match r.1 {
            PostAuthStep::Exchange(code) => state_matches(opt_text(*stored_state), query.state@)
                && code@ == query.code@,
            PostAuthStep::RejectState(reply) => !state_matches(
                opt_text(*stored_state),
                query.state@,
            ) && reply.status == 400 && reply.body@ == "state cookie missing or invalid"@,
        }),
{
    let state_check = check_state(query, stored_state);
    if state_check.valid {
        (true, PostAuthStep::Exchange(query.code.clone()))
    } else {
        (
            true,
            PostAuthStep::RejectState(
                HttpReply { status: 400, body: "state cookie missing or invalid".to_owned() },
            ),
        )
    }
}

/// Maps the token-exchange outcome to the terminal response: success is a
/// 200 with a completion message; failure a 400 with a generic diagnostic,
/// and the user must restart the flow.
pub fn post_auth_finish(exchange_ok: bool) -> (r: HttpReply)
    ensures
        exchange_ok ==> r.status == 200 && r.body@ == "All done! Please return to the app"@,
        !exchange_ok ==> r.status == 400 && r.body@ == "error exchanging code for token"@,
{
    if exchange_ok {
        HttpReply { status: 200, body: "All done! Please return to the app".to_owned() }
    } else {
        HttpReply { status: 400, body: "error exchanging code for token".to_owned() }
    }
}

/// A state token is single-use. Any callback attempt leaves no state cookie
/// behind ([`cookie_after_callback`]), so replaying a state token — even
/// the one that just succeeded — cannot match again.
pub proof fn lemma_state_token_single_use(replayed: Seq<char>)
    ensures
        !state_matches(cookie_after_callback(), replayed),
{
}


} // verus!
