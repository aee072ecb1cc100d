use replay::auth::models::{OAuthCode, OAuthProvider};
use replay::auth::services::{
    check_credentials, login, login_at, login_with_password, login_with_password_at, me, register,
    register_at, require_free, resolve_identity, sign_in_at, validate_profile, Login,
    LoginWithPassword,
    Me, Register,
};
use replay::auth::store::{
    bearer, AsOAuthStore, BitbucketLoginResponse, BitbucketOAuthStore, BitbucketUserResponse,
    GithubLoginResponse, GithubUserResponse, GitlabLoginResponse, GitlabOAuthStore,
    GitlabUserResponse, JsonMember, OAuthLoginResponse, OAuthStore, OAuthStoreProxy,
    OAuthUserResponse, GITHUB_TOKEN_URL, GITHUB_USER_AGENT, GITHUB_USER_URL,
};
use replay::clock::Duration;
use replay::config::Jwt;
use replay::error::{AppError, Error};
use replay::id::{Id, IdProvider, SequentialIdProvider, SnowflakeIdProvider};
use replay::jwt::models::AccessTokenSubject;
use replay::jwt::services::{
    blacklist_refresh_token, decode_access_token_at, decode_refresh_token_at,
    BlacklistRefreshToken, DecodeAccessToken, DecodeRefreshToken,
};
use replay::jwt::store::MemoryJwtStore;
use replay::users::models::{LoginConnection, LoginConnectionKind, User, UserKind};
use replay::users::services::{get_authd_user, require_user, GetAuthdUser};
use replay::users::store::{MemoryUserStore, UserStore};
use replay::users::values::{Email, OAuthAccessToken, Password, Username};

fn name(text: &str) -> Username {
    Username::parse(String::from(text)).unwrap()
}

fn email(text: &str) -> Email {
    Email::parse(String::from(text)).unwrap()
}

fn token(text: &str) -> OAuthAccessToken {
    OAuthAccessToken::new(String::from(text))
}

fn config() -> Jwt {
    Jwt {
        access_token_secret: String::from("access-secret"),
        refresh_token_secret: String::from("refresh-secret"),
        access_token_duration: Duration::seconds(3600),
        refresh_token_duration: Duration::seconds(86400),
    }
}

fn connection(id: i64, provider: OAuthProvider, access_token: &str, at: i64) -> LoginConnection {
    LoginConnection::new_at(Id::new(id), provider, token(access_token), at)
}

/// An identity provider that knows one user and hands out the code as the
/// access token.
struct OneUser {
    username: &'static str,
    email: Option<&'static str>,
}

impl OAuthStore for OneUser {
    fn login(&self, code: OAuthCode) -> Result<OAuthLoginResponse, Error> {
        Ok(OAuthLoginResponse { access_token: OAuthAccessToken::new(code.into_inner()) })
    }

    fn user(&self, _access_token: OAuthAccessToken) -> Result<OAuthUserResponse, Error> {
        Ok(OAuthUserResponse { username: name(self.username), email: self.email.map(email) })
    }
}

/// Every provider is the same one user.
struct Everywhere(OneUser);

impl AsOAuthStore for Everywhere {
    fn login(&self, _provider: &OAuthProvider, code: OAuthCode) -> Result<OAuthLoginResponse, Error> {
        self.0.login(code)
    }

    fn user(
        &self,
        _provider: &OAuthProvider,
        access_token: OAuthAccessToken,
    ) -> Result<OAuthUserResponse, Error> {
        self.0.user(access_token)
    }
}

fn count(user: &User, provider: OAuthProvider) -> usize {
    user.login_connections.iter().filter(|c| c.provider == provider).count()
}

#[test]
fn ids_keep_their_number() {
    let id: Id<UserKind> = Id::new(42);
    assert_eq!(*id.as_inner(), 42);
    assert_eq!(id.into_inner(), 42);
    let copy = id;
    assert_eq!(copy.into_inner(), id.clone().into_inner());
}

#[test]
fn sequential_ids_count_up() {
    let mut ids = SequentialIdProvider::<UserKind>::starting_at(7);
    assert_eq!(ids.take().into_inner(), 7);
    assert_eq!(ids.get().into_inner(), 8);
    assert_eq!(ids.take().into_inner(), 9);
    let mut last = SequentialIdProvider::<UserKind>::starting_at(i64::MAX);
    assert_eq!(last.take().into_inner(), i64::MAX);
    assert_eq!(last.take().into_inner(), i64::MIN);
}

#[test]
fn snowflake_ids_differ() {
    let mut ids = SnowflakeIdProvider::<LoginConnectionKind>::new();
    let a = ids.get().into_inner();
    let b = ids.get().into_inner();
    assert_ne!(a, b);
}

#[test]
fn provider_names() {
    assert_eq!(OAuthProvider::from_name("github"), Some(OAuthProvider::Github));
    assert_eq!(OAuthProvider::from_name("gitlab"), Some(OAuthProvider::Gitlab));
    assert_eq!(OAuthProvider::from_name("bitbucket"), Some(OAuthProvider::Bitbucket));
    assert_eq!(OAuthProvider::from_name("Github"), None);
    assert_eq!(OAuthProvider::from_name(""), None);
    assert_eq!(OAuthProvider::Github.name(), "github");
    assert_eq!(OAuthProvider::Gitlab.name(), "gitlab");
    assert_eq!(OAuthProvider::Bitbucket.name(), "bitbucket");
    assert_eq!(OAuthCode::new(String::from("c0de")).clone().into_inner(), "c0de");
}

#[test]
fn a_new_connection_starts_now() {
    let made = connection(5, OAuthProvider::Github, "t", 1000);
    assert_eq!(made.id.into_inner(), 5);
    assert_eq!(made.provider, OAuthProvider::Github);
    assert_eq!(made.created_at, 1000);
    assert_eq!(made.last_connection, 1000);
    assert_eq!(made.access_token.clone().into_inner(), "t");
    let now = LoginConnection::new(Id::new(6), OAuthProvider::Gitlab, token("u"));
    assert_eq!(now.created_at, now.last_connection);
    assert!(now.created_at > 1_600_000_000);
    let copy = now.duplicate();
    assert_eq!(copy.id.into_inner(), 6);
    assert_eq!(copy.created_at, now.created_at);
}

#[test]
fn a_new_user_has_the_one_connection() {
    let user = User::new_at(
        Id::new(1),
        name("alice"),
        Some(email("a@x.com")),
        connection(10, OAuthProvider::Github, "t0", 1000),
        1000,
    );
    assert_eq!(user.id.into_inner(), 1);
    assert_eq!(user.username.as_inner(), "alice");
    assert_eq!(user.email.as_ref().map(|e| e.as_inner()), Some("a@x.com"));
    assert!(user.password.is_none());
    assert_eq!(user.created_at, 1000);
    assert_eq!(user.login_connections.len(), 1);
    assert_eq!(user.login_connections[0].id.into_inner(), 10);
    let now = User::new(Id::new(2), name("bob"), None, connection(11, OAuthProvider::Github, "t", 5));
    assert!(now.created_at > 1_600_000_000);
    assert_eq!(now.login_connections.len(), 1);
}

#[test]
fn signing_in_again_updates_the_connection() {
    let mut user = User::new_at(
        Id::new(1),
        name("alice"),
        None,
        connection(10, OAuthProvider::Github, "t0", 1000),
        1000,
    );
    let r = user
        .add_or_update_login_connection_at(connection(11, OAuthProvider::Github, "t1", 2000), 2000);
    assert_eq!(r, Ok(()));
    assert_eq!(user.login_connections.len(), 1);
    let kept = &user.login_connections[0];
    assert_eq!(kept.id.into_inner(), 10);
    assert_eq!(kept.created_at, 1000);
    assert_eq!(kept.last_connection, 2000);
    assert_eq!(kept.access_token.clone().into_inner(), "t1");
    let r = user
        .add_or_update_login_connection_at(connection(12, OAuthProvider::Github, "t2", 3000), 3000);
    assert_eq!(r, Ok(()));
    assert_eq!(count(&user, OAuthProvider::Github), 1);
    assert_eq!(user.login_connections[0].last_connection, 3000);
    assert_eq!(user.login_connections[0].access_token.clone().into_inner(), "t2");
}

#[test]
fn signing_in_elsewhere_adds_a_connection() {
    let mut user = User::new_at(
        Id::new(1),
        name("alice"),
        None,
        connection(10, OAuthProvider::Github, "t0", 1000),
        1000,
    );
    user.add_or_update_login_connection_at(connection(11, OAuthProvider::Gitlab, "t1", 2000), 2000)
        .unwrap();
    assert_eq!(user.login_connections.len(), 2);
    assert_eq!(count(&user, OAuthProvider::Github), 1);
    assert_eq!(count(&user, OAuthProvider::Gitlab), 1);
    assert_eq!(count(&user, OAuthProvider::Bitbucket), 0);
    assert_eq!(user.login_connections[0].provider, OAuthProvider::Github);
    assert_eq!(user.login_connections[0].last_connection, 1000);
    assert_eq!(user.login_connections[1].provider, OAuthProvider::Gitlab);
    assert_eq!(user.login_connections[1].id.into_inner(), 11);
    assert_eq!(user.connection_for(OAuthProvider::Gitlab).map(|c| c.id.into_inner()), Some(11));
    assert!(user.connection_for(OAuthProvider::Bitbucket).is_none());
    user.add_or_update_login_connection(connection(12, OAuthProvider::Gitlab, "t2", 0)).unwrap();
    assert_eq!(user.login_connections.len(), 2);
    assert_eq!(user.login_connections[1].id.into_inner(), 11);
    assert!(user.login_connections[1].last_connection > 1_600_000_000);
    let copy = user.duplicate();
    assert_eq!(copy.login_connections.len(), 2);
    assert_eq!(copy.username.as_inner(), "alice");
}

#[test]
fn resolving_an_unknown_identity_makes_a_user() {
    let mut ids = SequentialIdProvider::<UserKind>::starting_at(100);
    let profile = OAuthUserResponse { username: name("alice"), email: Some(email("a@x.com")) };
    let user = resolve_identity(
        None,
        profile,
        connection(10, OAuthProvider::Github, "t0", 1000),
        &mut ids,
        1000,
    );
    assert_eq!(user.id.into_inner(), 100);
    assert_eq!(user.username.as_inner(), "alice");
    assert_eq!(user.created_at, 1000);
    assert_eq!(user.login_connections.len(), 1);
    // a known identity keeps its user and asks for no identifier
    let profile = OAuthUserResponse { username: name("alice"), email: None };
    let again = resolve_identity(
        Some(user),
        profile,
        connection(11, OAuthProvider::Github, "t1", 2000),
        &mut ids,
        2000,
    );
    assert_eq!(again.id.into_inner(), 100);
    assert_eq!(again.email.as_ref().map(|e| e.as_inner()), Some("a@x.com"));
    assert_eq!(again.login_connections.len(), 1);
    assert_eq!(again.login_connections[0].last_connection, 2000);
    assert_eq!(ids.take().into_inner(), 101);
}

#[test]
fn the_memory_store_keeps_the_last_write() {
    let mut store = MemoryUserStore::new();
    assert!(store.find_by_username(&name("alice")).unwrap().is_none());
    let mut user = User::new_at(
        Id::new(1),
        name("alice"),
        None,
        connection(10, OAuthProvider::Github, "t0", 1000),
        1000,
    );
    store.save(&user).unwrap();
    user.add_or_update_login_connection_at(connection(11, OAuthProvider::Gitlab, "t1", 2000), 2000)
        .unwrap();
    store.save(&user).unwrap();
    let found = store.find_by_username(&name("alice")).unwrap().unwrap();
    assert_eq!(found.login_connections.len(), 2);
    assert!(store.find_by_username(&name("bob")).unwrap().is_none());
}

#[test]
fn oauth_logins_merge_into_one_user() {
    let proxy = Everywhere(OneUser { username: "alice", email: Some("a@x.com") });
    let mut store = MemoryUserStore::new();
    let mut user_ids = SequentialIdProvider::<UserKind>::starting_at(1);
    let mut connection_ids = SequentialIdProvider::<LoginConnectionKind>::starting_at(50);
    let config = config();
    let mut last = 0;
    for (i, at) in [1000i64, 2000, 2000, 3000].iter().enumerate() {
        let input = Login {
            provider: OAuthProvider::Github,
            code: OAuthCode::new(format!("code-{}", i)),
        };
        let out =
            login_at(input, &proxy, &mut store, &config, &mut user_ids, &mut connection_ids, *at)
                .unwrap();
        assert_eq!(out.access_token.claims.sub.0.as_inner(), "alice");
        assert_eq!(out.refresh_token.claims.sub.0.as_inner(), "alice");
        assert_eq!(out.access_token.claims.exp, at + 3600);
        let user = store.find_by_username(&name("alice")).unwrap().unwrap();
        assert_eq!(user.id.into_inner(), 1);
        assert_eq!(count(&user, OAuthProvider::Github), 1);
        assert_eq!(user.login_connections.len(), 1);
        let kept = &user.login_connections[0];
        assert_eq!(kept.id.into_inner(), 50);
        assert_eq!(kept.created_at, 1000);
        assert!(kept.last_connection >= last);
        assert_eq!(kept.last_connection, *at);
        assert_eq!(kept.access_token.clone().into_inner(), format!("code-{}", i));
        last = kept.last_connection;
    }
    // the same user through another provider
    let input = Login { provider: OAuthProvider::Bitbucket, code: OAuthCode::new(String::from("b")) };
    login_at(input, &proxy, &mut store, &config, &mut user_ids, &mut connection_ids, 4000).unwrap();
    let user = store.find_by_username(&name("alice")).unwrap().unwrap();
    assert_eq!(user.login_connections.len(), 2);
    assert_eq!(count(&user, OAuthProvider::Github), 1);
    assert_eq!(count(&user, OAuthProvider::Bitbucket), 1);
    assert_eq!(user.login_connections[0].last_connection, 3000);
    assert_eq!(user.login_connections[1].last_connection, 4000);
    // only one user identifier was ever taken
    assert_eq!(user_ids.take().into_inner(), 2);
}

#[test]
fn oauth_login_now() {
    let proxy = Everywhere(OneUser { username: "frank", email: None });
    let mut store = MemoryUserStore::new();
    let mut user_ids = SnowflakeIdProvider::<UserKind>::new();
    let mut connection_ids = SnowflakeIdProvider::<LoginConnectionKind>::new();
    let input = Login { provider: OAuthProvider::Github, code: OAuthCode::new(String::from("c")) };
    let out = login(input, &proxy, &mut store, &config(), &mut user_ids, &mut connection_ids).unwrap();
    assert_eq!(out.access_token.claims.sub.0.as_inner(), "frank");
    let user = store.find_by_username(&name("frank")).unwrap().unwrap();
    assert!(user.email.is_none());
    assert_eq!(user.login_connections.len(), 1);
}

#[test]
fn providers_that_are_not_offered_fail() {
    let proxy = OAuthStoreProxy::new(
        OneUser { username: "alice", email: None },
        GitlabOAuthStore::new(),
        BitbucketOAuthStore::new(),
    );
    let code = || OAuthCode::new(String::from("c"));
    assert!(matches!(proxy.login(&OAuthProvider::Gitlab, code()), Err(Error::Internal)));
    assert!(matches!(proxy.login(&OAuthProvider::Bitbucket, code()), Err(Error::Internal)));
    assert!(matches!(proxy.user(&OAuthProvider::Gitlab, token("t")), Err(Error::Internal)));
    assert!(matches!(proxy.user(&OAuthProvider::Bitbucket, token("t")), Err(Error::Internal)));
    let through = proxy.login(&OAuthProvider::Github, code()).unwrap();
    assert_eq!(through.access_token.into_inner(), "c");
    let profile = proxy.user(&OAuthProvider::Github, token("t")).unwrap();
    assert_eq!(profile.username.as_inner(), "alice");
    assert!(matches!(GitlabOAuthStore::new().login(code()), Err(Error::Internal)));
    assert!(matches!(BitbucketOAuthStore::new().user(token("t")), Err(Error::Internal)));

    let mut store = MemoryUserStore::new();
    let mut user_ids = SequentialIdProvider::<UserKind>::starting_at(1);
    let mut connection_ids = SequentialIdProvider::<LoginConnectionKind>::starting_at(1);
    let input = Login { provider: OAuthProvider::Gitlab, code: code() };
    let r = login_at(input, &proxy, &mut store, &config(), &mut user_ids, &mut connection_ids, 10);
    assert!(matches!(r, Err(Error::Internal)));
    assert!(store.find_by_username(&name("alice")).unwrap().is_none());
}

#[test]
fn provider_answers_take_the_common_shape() {
    let a: OAuthLoginResponse = GithubLoginResponse { access_token: token("a") }.into();
    let b: OAuthLoginResponse = GitlabLoginResponse { access_token: token("b") }.into();
    let c: OAuthLoginResponse = BitbucketLoginResponse { access_token: token("c") }.into();
    assert_eq!(a.access_token.into_inner(), "a");
    assert_eq!(b.access_token.into_inner(), "b");
    assert_eq!(c.access_token.into_inner(), "c");
    let a: OAuthUserResponse =
        GithubUserResponse { username: name("a"), email: Some(email("a@x.com")) }.into();
    let b: OAuthUserResponse = GitlabUserResponse { username: name("b"), email: None }.into();
    let c: OAuthUserResponse = BitbucketUserResponse { username: name("c"), email: None }.into();
    assert_eq!(a.username.as_inner(), "a");
    assert_eq!(a.email.map(|e| e.into_inner()), Some(String::from("a@x.com")));
    assert_eq!(b.username.as_inner(), "b");
    assert_eq!(c.username.as_inner(), "c");
}

#[test]
fn github_answers_are_read() {
    let login = GithubLoginResponse::parse(
        "{\"access_token\":\"SECRET-REDACTED\",\"scope\":\"\",\"token_type\":\"bearer\"}",
    )
    .unwrap();
    assert_eq!(login.access_token.into_inner(), "SECRET-REDACTED");
    assert!(matches!(
        GithubLoginResponse::parse("{\"error\":\"bad_verification_code\"}"),
        Err(Error::Internal)
    ));
    assert!(matches!(GithubLoginResponse::parse("not json"), Err(Error::Internal)));
    assert!(matches!(GithubLoginResponse::parse("{\"access_token\":5}"), Err(Error::Internal)));
    assert!(matches!(GithubLoginResponse::from_member(None), Err(Error::Internal)));
    assert!(matches!(
        GithubLoginResponse::from_member(Some(JsonMember::Null)),
        Err(Error::Internal)
    ));

    let user =
        GithubUserResponse::parse("{\"login\":\"octocat\",\"id\":1,\"email\":\"o@github.com\"}")
            .unwrap();
    assert_eq!(user.username.as_inner(), "octocat");
    assert_eq!(user.email.map(|e| e.into_inner()), Some(String::from("o@github.com")));
    let user = GithubUserResponse::parse("{\"login\":\"octocat\",\"email\":null}").unwrap();
    assert!(user.email.is_none());
    let user = GithubUserResponse::parse("{\"login\":\"octocat\"}").unwrap();
    assert!(user.email.is_none());
    assert!(matches!(GithubUserResponse::parse("{\"email\":null}"), Err(Error::Internal)));
    assert!(matches!(GithubUserResponse::parse("{\"login\":\"\"}"), Err(Error::Internal)));
    assert!(matches!(
        GithubUserResponse::parse("{\"login\":\"octocat\",\"email\":\"nope\"}"),
        Err(Error::Internal)
    ));
    assert!(matches!(
        GithubUserResponse::parse("{\"login\":\"octocat\",\"email\":7}"),
        Err(Error::Internal)
    ));
    assert!(matches!(GithubUserResponse::parse("["), Err(Error::Internal)));
    assert!(matches!(
        GithubUserResponse::from_members(Some(JsonMember::Other), Some(JsonMember::Absent)),
        Err(Error::Internal)
    ));
}

#[test]
fn github_requests() {
    assert_eq!(GITHUB_TOKEN_URL, "https://github.com/login/oauth/access_token");
    assert_eq!(GITHUB_USER_URL, "https://api.github.com/user");
    assert_eq!(GITHUB_USER_AGENT, "Replay");
    assert_eq!(bearer(token("abc")), "Bearer abc");
}

#[test]
fn registration_is_checked_in_order() {
    let mut store = MemoryUserStore::new();
    let mut ids = SequentialIdProvider::<UserKind>::starting_at(1);
    let config = config();
    let all_bad = Register {
        username: String::new(),
        email: String::from("nope"),
        password: String::from("x"),
    };
    let r = register_at(all_bad, &mut store, &mut ids, &config, 1000);
    assert!(matches!(r, Err(Error::InvalidArgument(ref why)) if why == "Username cannot be empty."));
    let bad_email = Register {
        username: String::from("alice"),
        email: String::from("nope"),
        password: String::from("x"),
    };
    let r = register_at(bad_email, &mut store, &mut ids, &config, 1000);
    assert!(matches!(r, Err(Error::InvalidArgument(ref why)) if why == "Invalid email."));
    let bad_password = Register {
        username: String::from("alice"),
        email: String::from("a@x.com"),
        password: String::from("x"),
    };
    let r = register_at(bad_password, &mut store, &mut ids, &config, 1000);
    assert!(matches!(r, Err(Error::InvalidArgument(ref why))
        if why == "Password must be at least 6 characters long."));
    // nothing was saved and no identifier was taken
    assert!(store.find_by_username(&name("alice")).unwrap().is_none());
    assert_eq!(ids.take().into_inner(), 1);

    assert_eq!(
        validate_profile(String::from("nope"), String::from("x")).err(),
        Some(AppError::InvalidEmail)
    );
    assert_eq!(
        validate_profile(String::from("a@x.com"), String::from("x")).err(),
        Some(AppError::PasswordTooShort)
    );
    let (e, p) = validate_profile(String::from("a@x.com"), String::from("secret1")).unwrap();
    assert_eq!(e.as_inner(), "a@x.com");
    assert_eq!(p.into_inner(), "secret1");
}

#[test]
fn a_taken_name_is_refused_whatever_else_is_wrong() {
    let mut store = MemoryUserStore::new();
    let mut ids = SequentialIdProvider::<UserKind>::starting_at(1);
    let config = config();
    register_at(alice(), &mut store, &mut ids, &config, 1000).unwrap();
    for (email, password) in
        [("not-an-email", "secret1"), ("a@x.com", "short"), ("nope", "x"), ("b@x.com", "secret2")]
    {
        let again = Register {
            username: String::from("alice"),
            email: String::from(email),
            password: String::from(password),
        };
        let r = register_at(again, &mut store, &mut ids, &config, 2000);
        assert!(matches!(r, Err(Error::AlreadyExists(ref what)) if what == "User"));
        assert_eq!(r.err().map(|e| e.status_code()), Some(409));
    }
    let kept = store.find_by_username(&name("alice")).unwrap().unwrap();
    assert_eq!(kept.email.as_ref().map(|e| e.as_inner()), Some("a@x.com"));
    assert_eq!(kept.created_at, 1000);
    assert_eq!(ids.take().into_inner(), 2);
}

fn alice() -> Register {
    Register {
        username: String::from("alice"),
        email: String::from("a@x.com"),
        password: String::from("secret1"),
    }
}

#[test]
fn registering_a_taken_name_changes_nothing() {
    let mut store = MemoryUserStore::new();
    let mut ids = SequentialIdProvider::<UserKind>::starting_at(1);
    let config = config();
    let (access, refresh) = register_at(alice(), &mut store, &mut ids, &config, 1000).unwrap();
    assert_eq!(access.claims.sub.0.as_inner(), "alice");
    assert_eq!(access.claims.exp, 4600);
    assert_eq!(refresh.claims.exp, 87400);
    let again = Register {
        username: String::from("alice"),
        email: String::from("other@x.com"),
        password: String::from("another1"),
    };
    let r = register_at(again, &mut store, &mut ids, &config, 2000);
    assert!(matches!(r, Err(Error::AlreadyExists(ref what)) if what == "User"));
    let kept = store.find_by_username(&name("alice")).unwrap().unwrap();
    assert_eq!(kept.id.into_inner(), 1);
    assert_eq!(kept.email.as_ref().map(|e| e.as_inner()), Some("a@x.com"));
    assert_eq!(kept.password.clone().map(|p| p.into_inner()), Some(String::from("secret1")));
    assert_eq!(kept.created_at, 1000);
    assert!(kept.login_connections.is_empty());
    // no identifier was taken for the refused registration
    assert_eq!(ids.take().into_inner(), 2);
    let r = register(alice(), &mut store, &mut ids, &config);
    assert!(matches!(r, Err(Error::AlreadyExists(_))));
}

#[test]
fn registering_with_bad_values_is_refused() {
    let mut store = MemoryUserStore::new();
    let mut ids = SequentialIdProvider::<UserKind>::starting_at(1);
    let bad = Register {
        username: "a".repeat(31),
        email: String::from("a@x.com"),
        password: String::from("secret1"),
    };
    let r = register_at(bad, &mut store, &mut ids, &config(), 1000);
    assert!(matches!(r, Err(Error::InvalidArgument(ref why))
        if why == "Username must be at most 30 characters long."));
    let bad = Register {
        username: String::from("alice"),
        email: String::from("a@x.com"),
        password: String::from("thispasswordiswaytoolong"),
    };
    let r = register_at(bad, &mut store, &mut ids, &config(), 1000);
    assert!(matches!(r, Err(Error::InvalidArgument(ref why))
        if why == "Password must be at most 20 characters long."));
    assert!(store.find_by_username(&name("alice")).unwrap().is_none());
}

#[test]
fn a_free_name_is_free() {
    assert_eq!(require_free(&None), Ok(()));
    let user = User::registered_at(
        Id::new(1),
        name("alice"),
        email("a@x.com"),
        Password::parse(String::from("secret1")).unwrap(),
        10,
    );
    assert_eq!(require_free(&Some(user)), Err(AppError::UserAlreadyExists));
}

#[test]
fn password_login() {
    let mut store = MemoryUserStore::new();
    let mut ids = SequentialIdProvider::<UserKind>::starting_at(1);
    let config = config();
    register_at(alice(), &mut store, &mut ids, &config, 1000).unwrap();
    let good = LoginWithPassword { username: String::from("alice"), password: String::from("secret1") };
    let out = login_with_password_at(good, &store, &config, 5000).unwrap();
    assert_eq!(out.access_token.claims.sub.0.as_inner(), "alice");
    assert_eq!(out.access_token.claims.exp, 8600);
    assert_eq!(out.refresh_token.claims.exp, 91400);
    let wrong = LoginWithPassword { username: String::from("alice"), password: String::from("secret2") };
    let r = login_with_password_at(wrong, &store, &config, 5000);
    assert!(matches!(r, Err(Error::InvalidArgument(ref why)) if why == "Invalid password."));
    let nobody = LoginWithPassword { username: String::from("bob"), password: String::from("secret1") };
    let r = login_with_password_at(nobody, &store, &config, 5000);
    assert!(matches!(r, Err(Error::NotFound(ref what)) if what == "User"));
    let short = LoginWithPassword { username: String::from("alice"), password: String::from("x") };
    let r = login_with_password(short, &store, &config);
    assert!(matches!(r, Err(Error::InvalidArgument(_))));
    let good = LoginWithPassword { username: String::from("alice"), password: String::from("secret1") };
    assert!(login_with_password(good, &store, &config).is_ok());
}

#[test]
fn a_user_without_a_password_cannot_sign_in_with_one() {
    let user = User::new_at(
        Id::new(1),
        name("alice"),
        None,
        connection(10, OAuthProvider::Github, "t0", 1000),
        1000,
    );
    let password = Password::parse(String::from("secret1")).unwrap();
    assert_eq!(check_credentials(Some(user), &password).err(), Some(AppError::InvalidPassword));
    assert_eq!(check_credentials(None, &password).err(), Some(AppError::UserNotFound));
}

#[test]
fn me_finds_the_user_or_not() {
    let mut store = MemoryUserStore::new();
    let mut ids = SequentialIdProvider::<UserKind>::starting_at(1);
    let config = config();
    let (access, _) = register_at(alice(), &mut store, &mut ids, &config, 1000).unwrap();
    let user = me(Me { subject: AccessTokenSubject(name("alice")) }, &store).unwrap();
    assert_eq!(user.username.as_inner(), "alice");
    let r = me(Me { subject: AccessTokenSubject(name("bob")) }, &store);
    assert!(matches!(r, Err(Error::NotFound(ref what)) if what == "User"));
    let out = get_authd_user(GetAuthdUser { jwt: access }, &store).unwrap();
    assert_eq!(out.user.id.into_inner(), 1);
    assert!(matches!(require_user(None), Err(Error::NotFound(_))));
    let empty = MemoryUserStore::new();
    let (access, _) = register_at(alice(), &mut MemoryUserStore::new(), &mut ids, &config, 1).unwrap();
    let r = get_authd_user(GetAuthdUser { jwt: access }, &empty);
    assert!(matches!(r, Err(Error::NotFound(_))));
}

#[test]
fn register_me_logout_refresh() {
    let mut users = MemoryUserStore::new();
    let mut revoked = MemoryJwtStore::new();
    let mut ids = SequentialIdProvider::<UserKind>::starting_at(1);
    let config = config();
    let now = 1_700_000_000;

    // register
    let (access, refresh) = register_at(alice(), &mut users, &mut ids, &config, now).unwrap();
    assert!(!access.raw.0.is_empty());
    assert!(!refresh.raw.0.is_empty());

    // me, with the access token as a client would send it
    let presented = DecodeAccessToken { raw_jwt: access.raw.clone() };
    let jwt = decode_access_token_at(presented, &config, now + 1).unwrap();
    let user = me(Me { subject: jwt.claims.sub.clone() }, &users).unwrap();
    assert_eq!(user.username.as_inner(), "alice");
    assert_eq!(user.email.as_ref().map(|e| e.as_inner()), Some("a@x.com"));
    assert_eq!(user.created_at, now);

    // logout, with the refresh token
    let presented = DecodeRefreshToken { raw_jwt: refresh.raw.clone() };
    let jwt = decode_refresh_token_at(presented, &config, &revoked, now + 2).unwrap();
    blacklist_refresh_token(BlacklistRefreshToken { refresh_token: jwt }, &mut revoked).unwrap();

    // refresh with the same token: refused before anything is issued
    let presented = DecodeRefreshToken { raw_jwt: refresh.raw.clone() };
    let r = decode_refresh_token_at(presented, &config, &revoked, now + 3);
    assert!(matches!(r, Err(Error::InvalidArgument(ref why)) if why == "Token is no longer valid."));
    assert_eq!(r.err().map(|e| e.status_code()), Some(400));
}

#[test]
fn a_reported_profile_is_signed_in() {
    let mut store = MemoryUserStore::new();
    let mut user_ids = SequentialIdProvider::<UserKind>::starting_at(1);
    let mut connection_ids = SequentialIdProvider::<LoginConnectionKind>::starting_at(50);
    let config = config();
    let profile = OAuthUserResponse { username: name("alice"), email: Some(email("a@x.com")) };
    let out = sign_in_at(
        OAuthProvider::Github,
        token("t0"),
        profile,
        &mut store,
        &config,
        &mut user_ids,
        &mut connection_ids,
        1000,
    )
    .unwrap();
    assert_eq!(out.access_token.claims.sub.0.as_inner(), "alice");
    assert_eq!(out.access_token.claims.exp, 4600);
    assert_eq!(out.refresh_token.claims.exp, 87400);
    let user = store.find_by_username(&name("alice")).unwrap().unwrap();
    assert_eq!(user.id.into_inner(), 1);
    assert_eq!(user.email.as_ref().map(|e| e.as_inner()), Some("a@x.com"));
    assert_eq!(user.login_connections.len(), 1);
    assert_eq!(user.login_connections[0].id.into_inner(), 50);
    assert_eq!(user.login_connections[0].access_token.clone().into_inner(), "t0");

    // where no pair can be issued, the user is saved all the same
    let mut broken = config.clone();
    broken.access_token_duration = Duration::seconds(i64::MAX);
    let profile = OAuthUserResponse { username: name("bob"), email: None };
    let r = sign_in_at(
        OAuthProvider::Gitlab,
        token("t1"),
        profile,
        &mut store,
        &broken,
        &mut user_ids,
        &mut connection_ids,
        2000,
    );
    assert!(matches!(r, Err(Error::Internal)));
    let user = store.find_by_username(&name("bob")).unwrap().unwrap();
    assert_eq!(user.id.into_inner(), 2);
    assert_eq!(user.login_connections[0].provider, OAuthProvider::Gitlab);
    assert_eq!(user.login_connections[0].last_connection, 2000);
}

/// A provider that refuses every code.
struct Refusing;

impl AsOAuthStore for Refusing {
    fn login(&self, _p: &OAuthProvider, _c: OAuthCode) -> Result<OAuthLoginResponse, Error> {
        Err(Error::NotFound(String::from("code")))
    }

    fn user(&self, _p: &OAuthProvider, _t: OAuthAccessToken) -> Result<OAuthUserResponse, Error> {
        Err(Error::AlreadyExists(String::from("never asked")))
    }
}

#[test]
fn a_refusal_of_the_provider_is_the_answer() {
    let mut store = MemoryUserStore::new();
    let mut user_ids = SequentialIdProvider::<UserKind>::starting_at(1);
    let mut connection_ids = SequentialIdProvider::<LoginConnectionKind>::starting_at(1);
    let input = Login { provider: OAuthProvider::Github, code: OAuthCode::new(String::from("c")) };
    let r =
        login_at(input, &Refusing, &mut store, &config(), &mut user_ids, &mut connection_ids, 10);
    assert!(matches!(r, Err(Error::NotFound(ref what)) if what == "code"));
    assert_eq!(user_ids.take().into_inner(), 1);
    assert_eq!(connection_ids.take().into_inner(), 1);
}

#[test]
fn one_connection_per_provider_is_tested() {
    let mut user = User::new_at(
        Id::new(1),
        name("alice"),
        None,
        connection(10, OAuthProvider::Github, "t0", 1000),
        1000,
    );
    assert!(user.has_one_per_provider());
    user.login_connections.push(connection(11, OAuthProvider::Gitlab, "t1", 1000));
    assert!(user.has_one_per_provider());
    user.login_connections.push(connection(12, OAuthProvider::Github, "t2", 1000));
    assert!(!user.has_one_per_provider());
    user.login_connections.clear();
    assert!(user.has_one_per_provider());
}
