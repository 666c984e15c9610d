//! The decisions of the sign-in: whether a cached token is refreshed or the
//! browser is asked, what is said at each stage, and how the authorization
//! code is taken from the redirect that the browser makes.

use vstd::prelude::*;
use crate::app_state::{pairs, Token, TokenView};
use crate::text::{chars_of, same_text};
use vstd::string::StringExecFns;

verus! {

/// The client registration as the credentials file holds it.
#[derive(Debug)]
pub struct Installed {
    pub client_id: String,
    pub client_secret: String,
    pub redirect_uris: Vec<String>,
}

/// The credentials file.
#[derive(Debug)]
pub struct Credentials {
    pub installed: Installed,
}

/// How a token is obtained.
#[derive(Debug, PartialEq, Eq)]
pub enum AuthPlan {
    /// Exchange the refresh secret of the stored token for a new token.
    Refresh { refresh_token: String },
    /// Send the user to the browser and wait for the redirect.
    Interactive,
}

/// The mathematical content of an [`AuthPlan`].
pub enum AuthPlanView {
    Refresh { refresh_token: Seq<char> },
    Interactive,
}

impl View for AuthPlan {
    type V = AuthPlanView;

    open spec fn view(&self) -> AuthPlanView {
        match self {
            AuthPlan::Refresh { refresh_token } => AuthPlanView::Refresh {
                refresh_token: refresh_token@,
            },
            AuthPlan::Interactive => AuthPlanView::Interactive,
        }
    }
}

/// A stored token with a refresh secret is refreshed; without a stored
/// token, or without a refresh secret in it, the browser is asked.
pub open spec fn plan_for(stored: Option<TokenView>) -> AuthPlanView {
    match stored {
        Some(token) => match token.refresh_token {
            Some(secret) => AuthPlanView::Refresh { refresh_token: secret },
            None => AuthPlanView::Interactive,
        },
        None => AuthPlanView::Interactive,
    }
}

/// Decides how to obtain a token, given the token found in storage.
pub fn plan_authentication(stored: Option<&Token>) -> (plan: AuthPlan)
    ensures
        plan@ == plan_for(
            match stored {
                Some(token) => Some(token@),
                None => None,
            },
        ),
{
    match stored {
        Some(token) => match &token.refresh_token {
            Some(secret) => AuthPlan::Refresh { refresh_token: secret.clone() },
            None => AuthPlan::Interactive,
        },
        None => AuthPlan::Interactive,
    }
}

/// The moments of a sign-in that are reported to the user.
#[derive(Copy, Clone, Debug, PartialEq, Eq, Structural)]
pub enum AuthStage {
    Refreshed,
    OpeningBrowser,
    WaitingForRedirect,
    Complete,
}

/// The status line of a stage.
pub open spec fn stage_text(stage: AuthStage) -> Seq<char> {
    match stage {
        AuthStage::Refreshed => "Token refreshed successfully."@,
        AuthStage::OpeningBrowser => "Opening your browser to authenticate..."@,
        AuthStage::WaitingForRedirect => "Waiting for authentication response..."@,
        AuthStage::Complete => "Authentication complete!"@,
    }
}

/// The status line that reports a stage of the sign-in.
pub fn stage_message(stage: AuthStage) -> (line: String)
    ensures
        line@ == stage_text(stage),
{
    match stage {
        AuthStage::Refreshed => String::from_str("Token refreshed successfully."),
        AuthStage::OpeningBrowser => String::from_str("Opening your browser to authenticate..."),
        AuthStage::WaitingForRedirect => String::from_str("Waiting for authentication response..."),
        AuthStage::Complete => String::from_str("Authentication complete!"),
    }
}

/// Why no authorization code could be taken from a redirect.
#[derive(Copy, Clone, Debug, PartialEq, Eq, Structural)]
pub enum AuthError {
    /// The redirect is no address.
    InvalidRedirect,
    /// The redirect carries no `code` parameter.
    MissingCode,
}

impl AuthError {
    /// The error in words.
    pub fn message(&self) -> (text: String)
        ensures
            text@ == (match *self {
                AuthError::InvalidRedirect => "Invalid redirect address"@,
                AuthError::MissingCode => "No 'code' parameter found in redirect"@,
            }),
    {
        match self {
            AuthError::InvalidRedirect => String::from_str("Invalid redirect address"),
            AuthError::MissingCode => String::from_str("No 'code' parameter found in redirect"),
        }
    }
}

/// The pairs of the query of an address as `Url::parse` and
/// `Url::query_pairs` give them, percent-decoded and in order; nothing
/// where the address does not parse.
pub uninterp spec fn url_query_pairs(url: Seq<char>) -> Option<Seq<(Seq<char>, Seq<char>)>>;

/// Calls `url::Url::parse`, then `Url::query_pairs`, and collects the
/// decoded pairs in order. The result is a function of the text alone; the
/// contract gives it a name and says nothing else of it.
#[verifier::external_body]
pub(crate) fn query_pairs(url: &str) -> (found: Option<Vec<(String, String)>>)
    ensures
        match found {
            Some(list) => url_query_pairs(url@) == Some(pairs(list@)),
            None => url_query_pairs(url@) is None,
        },
{
    match url::Url::parse(url) {
        Ok(parsed) => Some(
            parsed.query_pairs().map(|(k, v)| (k.into_owned(), v.into_owned())).collect(),
        ),
        Err(_) => None,
    }
}

/// The value of the first pair whose key is `key`.
pub open spec fn first_value(list: Seq<(Seq<char>, Seq<char>)>, key: Seq<char>) -> Option<
    Seq<char>,
>
    decreases list.len(),
{
    if list.len() == 0 {
        None
    } else if list[0].0 == key {
        Some(list[0].1)
    } else {
        first_value(list.drop_first(), key)
    }
}

/// The authorization code among the pairs of a redirect: the value of the
/// first `code` parameter.
pub open spec fn code_among(list: Seq<(Seq<char>, Seq<char>)>) -> Result<Seq<char>, AuthError> {
    match first_value(list, "code"@) {
        Some(code) => Ok(code),
        None => Err(AuthError::MissingCode),
    }
}

proof fn lemma_first_value_skip(list: Seq<(Seq<char>, Seq<char>)>, key: Seq<char>, k: int)
    requires
        0 <= k <= list.len(),
        forall|i: int| 0 <= i < k ==> (#[trigger] list[i]).0 != key,
    ensures
        first_value(list, key) == first_value(list.skip(k), key),
    decreases k,
{
    if k == 0 {
        assert(list.skip(0) =~= list);
    } else {
        let rest = list.drop_first();
        assert forall|i: int| 0 <= i < k - 1 implies (#[trigger] rest[i]).0 != key by {
            assert(rest[i] == list[i + 1]);
        }
        lemma_first_value_skip(rest, key, k - 1);
        assert(rest.skip(k - 1) =~= list.skip(k));
    }
}

/// Takes the authorization code from the pairs of a redirect.
pub fn code_from_pairs(list: &Vec<(String, String)>) -> (code: Result<String, AuthError>)
    ensures
        match code_among(pairs(list@)) {
            Ok(text) => code is Ok && code->Ok_0@ == text,
            Err(e) => code == Err::<String, AuthError>(e),
        },
{
    let ghost all = pairs(list@);
    let mut at: usize = 0;
    while at < list.len()
        invariant
            at <= list@.len(),
            all == pairs(list@),
            forall|i: int| 0 <= i < at ==> (#[trigger] all[i]).0 != "code"@,
        decreases list@.len() - at,
    {
        let key = chars_of(list[at].0.as_str());
        if same_text(&key, "code") {
            proof {
                lemma_first_value_skip(all, "code"@, at as int);
                assert(all.skip(at as int)[0] == all[at as int]);
            }
            return Ok(list[at].1.clone());
        }
        at = at + 1;
    }
    proof {
        lemma_first_value_skip(all, "code"@, all.len() as int);
    }
    Err(AuthError::MissingCode)
}

/// The address that a redirect to `request_path` was made to.
pub open spec fn redirect_address(request_path: Seq<char>) -> Seq<char> {
    "http://localhost"@ + request_path
}

/// The authorization code that a redirect carries.
pub open spec fn code_of_redirect(request_path: Seq<char>) -> Result<Seq<char>, AuthError> {
    match url_query_pairs(redirect_address(request_path)) {
        Some(list) => code_among(list),
        None => Err(AuthError::InvalidRedirect),
    }
}

/// Takes the authorization code from the path and query of the redirect
/// that the browser made.
pub fn authorization_code(request_path: &str) -> (code: Result<String, AuthError>)
    ensures
        match code_of_redirect(request_path@) {
            Ok(text) => code is Ok && code->Ok_0@ == text,
            Err(e) => code == Err::<String, AuthError>(e),
        },
{
    let mut address = String::from_str("http://localhost");
    address.append(request_path);
    match query_pairs(address.as_str()) {
        Some(list) => code_from_pairs(&list),
        None => Err(AuthError::InvalidRedirect),
    }
}

/// What the sign-in asks the identity service for.
#[derive(Debug, PartialEq, Eq)]
pub struct ClientSettings {
    pub client_id: String,
    pub client_secret: String,
    pub auth_url: String,
    pub token_url: String,
    pub redirect_uri: String,
    pub scope: String,
}

/// The settings of the sign-in for a client registration: its id and
/// secret, and the fixed endpoints, redirect address and scope.
pub fn client_settings(credentials: &Credentials) -> (settings: ClientSettings)
    ensures
        settings.client_id@ == credentials.installed.client_id@,
        settings.client_secret@ == credentials.installed.client_secret@,
        settings.auth_url@ == "https://accounts.google.com/o/oauth2/v2/auth"@,
        settings.token_url@ == "https://oauth2.googleapis.com/token"@,
        settings.redirect_uri@ == "http://127.0.0.1:8080"@,
        settings.scope@ == "https://www.googleapis.com/auth/youtube"@,
{
    ClientSettings {
        client_id: credentials.installed.client_id.clone(),
        client_secret: credentials.installed.client_secret.clone(),
        auth_url: String::from_str("https://accounts.google.com/o/oauth2/v2/auth"),
        token_url: String::from_str("https://oauth2.googleapis.com/token"),
        redirect_uri: String::from_str("http://127.0.0.1:8080"),
        scope: String::from_str("https://www.googleapis.com/auth/youtube"),
    }
}

/// What the browser is shown once the redirect has arrived.
pub fn browser_reply() -> (page: String)
    ensures
        page@
            == "Authentication complete! You can close this browser tab and return to the app."@,
{
    String::from_str(
        "Authentication complete! You can close this browser tab and return to the app.",
    )
}

} // verus!
