//! The adapters to the identity providers: each exchanges an authorization
//! code for an access token and reads the profile behind an access token.
//! What goes over the wire is built and read here; sending is the caller's.

use vstd::prelude::*;
use vstd::std_specs::convert::FromSpecImpl;
use vstd::string::StringExecFns;

use crate::auth::models::{OAuthCode, OAuthProvider};
use crate::error::{Error, ErrorView};
use crate::users::values::{checked_email, checked_username, Email, OAuthAccessToken, Username};

verus! {

/// What a provider answers to an authorization code.
#[derive(Debug)]
pub struct OAuthLoginResponse {
    pub access_token: OAuthAccessToken,
}

/// The profile that a provider reports, in the one shape that the rest of
/// the library reads.
#[derive(Debug)]
pub struct OAuthUserResponse {
    pub username: Username,
    pub email: Option<Email>,
}

/// One identity provider.
pub trait OAuthStore {
    /// Exchanges a one-time authorization code for an access token.
    fn login(&self, code: OAuthCode) -> Result<OAuthLoginResponse, Error>;

    /// Reads the profile of the user behind an access token.
    fn user(&self, access_token: OAuthAccessToken) -> Result<OAuthUserResponse, Error>;
}

/// All identity providers behind one face: the provider's tag picks the
/// adapter, so that callers never branch on it.
pub trait AsOAuthStore {
    fn login(&self, provider: &OAuthProvider, code: OAuthCode) -> Result<OAuthLoginResponse, Error>;

    fn user(&self, provider: &OAuthProvider, access_token: OAuthAccessToken) -> Result<
        OAuthUserResponse,
        Error,
    >;
}

/// What GitHub answers to an authorization code.
#[derive(Debug)]
pub struct GithubLoginResponse {
    pub access_token: OAuthAccessToken,
}

/// The profile as GitHub reports it, its `login` taken as the username.
#[derive(Debug)]
pub struct GithubUserResponse {
    pub username: Username,
    pub email: Option<Email>,
}

/// What GitLab answers to an authorization code.
#[derive(Debug)]
pub struct GitlabLoginResponse {
    pub access_token: OAuthAccessToken,
}

/// The profile as GitLab reports it.
#[derive(Debug)]
pub struct GitlabUserResponse {
    pub username: Username,
    pub email: Option<Email>,
}

/// What Bitbucket answers to an authorization code.
#[derive(Debug)]
pub struct BitbucketLoginResponse {
    pub access_token: OAuthAccessToken,
}

/// The profile as Bitbucket reports it.
#[derive(Debug)]
pub struct BitbucketUserResponse {
    pub username: Username,
    pub email: Option<Email>,
}

/// The text of an optional e-mail address.
pub open spec fn email_text(email: Option<Email>) -> Option<Seq<char>> {
    match email {
        Some(e) => Some(e@),
        None => None,
    }
}

impl FromSpecImpl<GithubLoginResponse> for OAuthLoginResponse {
    open spec fn obeys_from_spec() -> bool {
        true
    }

    open spec fn from_spec(value: GithubLoginResponse) -> OAuthLoginResponse {
        OAuthLoginResponse { access_token: value.access_token }
    }
}

impl From<GithubLoginResponse> for OAuthLoginResponse {
    fn from(value: GithubLoginResponse) -> (r: OAuthLoginResponse) {
        OAuthLoginResponse { access_token: value.access_token }
    }
}

impl FromSpecImpl<GitlabLoginResponse> for OAuthLoginResponse {
    open spec fn obeys_from_spec() -> bool {
        true
    }

    open spec fn from_spec(value: GitlabLoginResponse) -> OAuthLoginResponse {
        OAuthLoginResponse { access_token: value.access_token }
    }
}

impl From<GitlabLoginResponse> for OAuthLoginResponse {
    fn from(value: GitlabLoginResponse) -> (r: OAuthLoginResponse) {
        OAuthLoginResponse { access_token: value.access_token }
    }
}

impl FromSpecImpl<BitbucketLoginResponse> for OAuthLoginResponse {
    open spec fn obeys_from_spec() -> bool {
        true
    }

    open spec fn from_spec(value: BitbucketLoginResponse) -> OAuthLoginResponse {
        OAuthLoginResponse { access_token: value.access_token }
    }
}

impl From<BitbucketLoginResponse> for OAuthLoginResponse {
    fn from(value: BitbucketLoginResponse) -> (r: OAuthLoginResponse) {
        OAuthLoginResponse { access_token: value.access_token }
    }
}

impl FromSpecImpl<GithubUserResponse> for OAuthUserResponse {
    open spec fn obeys_from_spec() -> bool {
        true
    }

    open spec fn from_spec(value: GithubUserResponse) -> OAuthUserResponse {
        OAuthUserResponse { username: value.username, email: value.email }
    }
}

impl From<GithubUserResponse> for OAuthUserResponse {
    fn from(value: GithubUserResponse) -> (r: OAuthUserResponse) {
        OAuthUserResponse { username: value.username, email: value.email }
    }
}

impl FromSpecImpl<GitlabUserResponse> for OAuthUserResponse {
    open spec fn obeys_from_spec() -> bool {
        true
    }

    open spec fn from_spec(value: GitlabUserResponse) -> OAuthUserResponse {
        OAuthUserResponse { username: value.username, email: value.email }
    }
}

impl From<GitlabUserResponse> for OAuthUserResponse {
    fn from(value: GitlabUserResponse) -> (r: OAuthUserResponse) {
        OAuthUserResponse { username: value.username, email: value.email }
    }
}

impl FromSpecImpl<BitbucketUserResponse> for OAuthUserResponse {
    open spec fn obeys_from_spec() -> bool {
        true
    }

    open spec fn from_spec(value: BitbucketUserResponse) -> OAuthUserResponse {
        OAuthUserResponse { username: value.username, email: value.email }
    }
}

impl From<BitbucketUserResponse> for OAuthUserResponse {
    fn from(value: BitbucketUserResponse) -> (r: OAuthUserResponse) {
        OAuthUserResponse { username: value.username, email: value.email }
    }
}

/// The adapter to GitLab. Signing in through GitLab is not offered yet:
/// both operations fail with `Internal`.
pub struct GitlabOAuthStore {}

impl GitlabOAuthStore {
    pub fn new() -> Self {
        GitlabOAuthStore {  }
    }
}

impl OAuthStore for GitlabOAuthStore {
    fn login(&self, code: OAuthCode) -> (r: Result<OAuthLoginResponse, Error>)
        ensures
            r matches Err(e) && e@ == ErrorView::Internal,
    {
        Err(Error::Internal)
    }

    fn user(&self, access_token: OAuthAccessToken) -> (r: Result<OAuthUserResponse, Error>)
        ensures
            r matches Err(e) && e@ == ErrorView::Internal,
    {
        Err(Error::Internal)
    }
}

/// The adapter to Bitbucket. Signing in through Bitbucket is not offered
/// yet: both operations fail with `Internal`.
pub struct BitbucketOAuthStore {}

impl BitbucketOAuthStore {
    pub fn new() -> Self {
        BitbucketOAuthStore {  }
    }
}

impl OAuthStore for BitbucketOAuthStore {
    fn login(&self, code: OAuthCode) -> (r: Result<OAuthLoginResponse, Error>)
        ensures
            r matches Err(e) && e@ == ErrorView::Internal,
    {
        Err(Error::Internal)
    }

    fn user(&self, access_token: OAuthAccessToken) -> (r: Result<OAuthUserResponse, Error>)
        ensures
            r matches Err(e) && e@ == ErrorView::Internal,
    {
        Err(Error::Internal)
    }
}

/// The three adapters behind one face. The adapter to GitHub is the
/// caller's: it is the one that talks to a provider.
pub struct OAuthStoreProxy<G: OAuthStore> {
    github_oauth_store: G,
    gitlab_oauth_store: GitlabOAuthStore,
    bitbucket_oauth_store: BitbucketOAuthStore,
}

impl<G: OAuthStore> OAuthStoreProxy<G> {
    pub fn new(
        github_oauth_store: G,
        gitlab_oauth_store: GitlabOAuthStore,
        bitbucket_oauth_store: BitbucketOAuthStore,
    ) -> (proxy: Self)
        ensures
            proxy.github() == github_oauth_store,
    {
        OAuthStoreProxy { github_oauth_store, gitlab_oauth_store, bitbucket_oauth_store }
    }

    /// The adapter that answers for GitHub.
    pub closed spec fn github(&self) -> G {
        self.github_oauth_store
    }
}

impl<G: OAuthStore> AsOAuthStore for OAuthStoreProxy<G> {
    /// Hands the code to the adapter of the provider.
    fn login(&self, provider: &OAuthProvider, code: OAuthCode) -> (r: Result<
        OAuthLoginResponse,
        Error,
    >)
        ensures
            *provider != OAuthProvider::Github ==> (r matches Err(e) && e@ == ErrorView::Internal),
            *provider == OAuthProvider::Github ==> call_ensures(
                G::login,
                (&self.github(), code),
                r,
            ),
    {
        match provider {
            OAuthProvider::Github => self.github_oauth_store.login(code),
            OAuthProvider::Gitlab => self.gitlab_oauth_store.login(code),
            OAuthProvider::Bitbucket => self.bitbucket_oauth_store.login(code),
        }
    }

    /// Hands the access token to the adapter of the provider.
    fn user(&self, provider: &OAuthProvider, access_token: OAuthAccessToken) -> (r: Result<
        OAuthUserResponse,
        Error,
    >)
        ensures
            *provider != OAuthProvider::Github ==> (r matches Err(e) && e@ == ErrorView::Internal),
            *provider == OAuthProvider::Github ==> call_ensures(
                G::user,
                (&self.github(), access_token),
                r,
            ),
    {
        match provider {
            OAuthProvider::Github => self.github_oauth_store.user(access_token),
            OAuthProvider::Gitlab => self.gitlab_oauth_store.user(access_token),
            OAuthProvider::Bitbucket => self.bitbucket_oauth_store.user(access_token),
        }
    }
}

/// Where GitHub exchanges an authorization code for an access token.
pub const GITHUB_TOKEN_URL: &'static str = "https://github.com/login/oauth/access_token";

/// Where GitHub reports the profile behind an access token.
pub const GITHUB_USER_URL: &'static str = "https://api.github.com/user";

/// The name under which requests to GitHub are sent.
pub const GITHUB_USER_AGENT: &'static str = "Replay";

/// The `Authorization` header that carries an access token.
pub fn bearer(access_token: OAuthAccessToken) -> (header: String)
    ensures
        header@ == "Bearer "@ + access_token@,
{
    String::from_str("Bearer ").concat(access_token.into_inner().as_str())
}

/// A member of a JSON object, as far as the adapters tell members apart.
#[derive(Debug)]
pub enum JsonMember {
    /// The object has no such member, or the document is no object.
    Absent,
    /// The member is `null`.
    Null,
    /// The member is a text.
    Text(String),
    /// The member is anything else.
    Other,
}

/// The mathematical value of a [`JsonMember`].
pub enum JsonMemberView {
    Absent,
    Null,
    Text(Seq<char>),
    Other,
}

impl View for JsonMember {
    type V = JsonMemberView;

    open spec fn view(&self) -> JsonMemberView {
        match self {
            JsonMember::Absent => JsonMemberView::Absent,
            JsonMember::Null => JsonMemberView::Null,
            JsonMember::Text(text) => JsonMemberView::Text(text@),
            JsonMember::Other => JsonMemberView::Other,
        }
    }
}

/// The member of that name in the JSON document that `serde_json` reads
/// from a text; `None` where the text is no JSON document.
pub uninterp spec fn json_member(document: Seq<char>, name: Seq<char>) -> Option<JsonMemberView>;

/// Reads a text with `serde_json::from_str` and looks a member up with
/// `serde_json::Value::get`. The outcome depends on the two arguments alone.
#[verifier::external_body]
fn read_member(document: &str, name: &str) -> (r: Option<JsonMember>)
    ensures
        match r {
            Some(member) => json_member(document@, name@) == Some(member@),
            None => json_member(document@, name@) is None,
        },
{
    let value = serde_json::from_str::<serde_json::Value>(document).ok()?;
    Some(
        match value.get(name) {
            None => JsonMember::Absent,
            Some(serde_json::Value::Null) => JsonMember::Null,
            Some(serde_json::Value::String(text)) => JsonMember::Text(text.clone()),
            Some(_) => JsonMember::Other,
        },
    )
}

/// The access token that an answer to an authorization code holds: its
/// member `access_token`, which must be a text.
pub open spec fn login_answer(access_token: Option<JsonMemberView>) -> Option<Seq<char>> {
    match access_token {
        Some(JsonMemberView::Text(token)) => Some(token),
        _ => None,
    }
}

/// The profile that an answer holds: a username, which must be a text of 1
/// to 30 bytes, and an e-mail address, which may be missing or `null` and
/// must else be a text in the syntax of an e-mail address.
pub open spec fn user_answer(
    username: Option<JsonMemberView>,
    email: Option<JsonMemberView>,
) -> Option<(Seq<char>, Option<Seq<char>>)> {
    match (username, email) {
        (Some(JsonMemberView::Text(name)), Some(JsonMemberView::Text(address))) => {
            if checked_username(name) is Ok && checked_email(address) is Ok {
                Some((name, Some(address)))
            } else {
                None
            }
        },
        (Some(JsonMemberView::Text(name)), Some(JsonMemberView::Absent))
        | (Some(JsonMemberView::Text(name)), Some(JsonMemberView::Null)) => {
            if checked_username(name) is Ok {
                Some((name, None))
            } else {
                None
            }
        },
        _ => None,
    }
}

impl GithubLoginResponse {
    /// Reads GitHub's answer to an authorization code. `Internal` where the
    /// text is no JSON document or holds no access token.
    pub fn parse(body: &str) -> (r: Result<GithubLoginResponse, Error>)
        ensures
            match r {
                Ok(response) => login_answer(json_member(body@, "access_token"@)) == Some(
                    response.access_token@,
                ),
                Err(e) => e@ == ErrorView::Internal && login_answer(
                    json_member(body@, "access_token"@),
                ) is None,
            },
    {
        GithubLoginResponse::from_member(read_member(body, "access_token"))
    }

    /// Takes the access token out of the member that should hold it.
    pub fn from_member(access_token: Option<JsonMember>) -> (r: Result<GithubLoginResponse, Error>)
        ensures
            match r {
                Ok(response) => login_answer(
                    match access_token {
                        Some(m) => Some(m@),
                        None => None,
                    },
                ) == Some(response.access_token@),
                Err(e) => e@ == ErrorView::Internal && login_answer(
                    match access_token {
                        Some(m) => Some(m@),
                        None => None,
                    },
                ) is None,
            },
    {
        match access_token {
            Some(JsonMember::Text(token)) => Ok(
                GithubLoginResponse { access_token: OAuthAccessToken::new(token) },
            ),
            _ => Err(Error::Internal),
        }
    }
}

impl GithubUserResponse {
    /// Reads the profile that GitHub reports: `login` is the username,
    /// `email` the address. `Internal` where the text is no JSON document
    /// or holds no profile.
    pub fn parse(body: &str) -> (r: Result<GithubUserResponse, Error>)
        ensures
            match r {
                Ok(response) => user_answer(
                    json_member(body@, "login"@),
                    json_member(body@, "email"@),
                ) == Some((response.username@, email_text(response.email))),
                Err(e) => e@ == ErrorView::Internal && user_answer(
                    json_member(body@, "login"@),
                    json_member(body@, "email"@),
                ) is None,
            },
    {
        let username = read_member(body, "login");
        let email = read_member(body, "email");
        GithubUserResponse::from_members(username, email)
    }

    /// Takes the profile out of the two members that should hold it.
    pub fn from_members(username: Option<JsonMember>, email: Option<JsonMember>) -> (r: Result<
        GithubUserResponse,
        Error,
    >)
        ensures
            match r {
                Ok(response) => user_answer(
                    match username {
                        Some(m) => Some(m@),
                        None => None,
                    },
                    match email {
                        Some(m) => Some(m@),
                        None => None,
                    },
                ) == Some((response.username@, email_text(response.email))),
                Err(e) => e@ == ErrorView::Internal && user_answer(
                    match username {
                        Some(m) => Some(m@),
                        None => None,
                    },
                    match email {
                        Some(m) => Some(m@),
                        None => None,
                    },
                ) is None,
            },
    {
        let username = match username {
            Some(JsonMember::Text(name)) => match Username::parse(name) {
                Ok(username) => username,
                Err(_) => {
                    return Err(Error::Internal);
                },
            },
            _ => {
                return Err(Error::Internal);
            },
        };
        let email = match email {
            Some(JsonMember::Text(address)) => match Email::parse(address) {
                Ok(email) => Some(email),
                Err(_) => {
                    return Err(Error::Internal);
                },
            },
            Some(JsonMember::Absent) | Some(JsonMember::Null) => None,
            _ => {
                return Err(Error::Internal);
            },
        };
        Ok(GithubUserResponse { username, email })
    }
}

} // verus!
