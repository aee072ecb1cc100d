//! The settings that the library is run with, and the checks on them.

use vstd::prelude::*;
use vstd::string::StringExecFns;

use crate::clock::Duration;
use crate::error::{Error, ErrorView};
use crate::text::same_text;

verus! {

pub const POSTGRES_SCHEME: &'static str = "postgresql";

pub const REDIS_SCHEME: &'static str = "redis";

/// All settings.
#[derive(Debug)]
pub struct Config {
    pub db: Database,
    pub redis: Redis,
    pub http: Http,
    pub jwt: Jwt,
    pub github_oauth: GithubOAuth,
}

/// The relational store.
#[derive(Debug)]
pub struct Database {
    pub url: String,
    pub pool_size: u32,
    /// How long a connection is kept, in seconds.
    pub connection_lifetime: u64,
}

/// The key-value store of revocations.
#[derive(Debug)]
pub struct Redis {
    pub url: String,
    pub pool_size: u32,
    /// How long a connection is kept, in seconds.
    pub connection_lifetime: u64,
}

/// The HTTP server.
#[derive(Debug, Clone, Copy, PartialEq, Eq, Structural)]
pub struct Http {
    pub port: u16,
}

/// The secrets and lifetimes of the two classes of tokens. Each class has
/// a secret of its own, so that one class cannot be forged with the other's.
#[derive(Debug)]
pub struct Jwt {
    pub access_token_secret: String,
    pub refresh_token_secret: String,
    pub access_token_duration: Duration,
    pub refresh_token_duration: Duration,
}

impl Clone for Jwt {
    fn clone(&self) -> (r: Jwt)
        ensures
            r.access_token_secret@ == self.access_token_secret@,
            r.refresh_token_secret@ == self.refresh_token_secret@,
            r.access_token_duration == self.access_token_duration,
            r.refresh_token_duration == self.refresh_token_duration,
    {
        Jwt {
            access_token_secret: self.access_token_secret.clone(),
            refresh_token_secret: self.refresh_token_secret.clone(),
            access_token_duration: self.access_token_duration,
            refresh_token_duration: self.refresh_token_duration,
        }
    }
}

/// The application's credentials at GitHub.
#[derive(Debug)]
pub struct GithubOAuth {
    pub client_id: String,
    pub client_secret: String,
}

impl Clone for GithubOAuth {
    fn clone(&self) -> (r: GithubOAuth)
        ensures
            r.client_id@ == self.client_id@,
            r.client_secret@ == self.client_secret@,
    {
        GithubOAuth {
            client_id: self.client_id.clone(),
            client_secret: self.client_secret.clone(),
        }
    }
}

impl Clone for Database {
    fn clone(&self) -> (r: Database)
        ensures
            r.url@ == self.url@,
            r.pool_size == self.pool_size,
            r.connection_lifetime == self.connection_lifetime,
    {
        Database {
            url: self.url.clone(),
            pool_size: self.pool_size,
            connection_lifetime: self.connection_lifetime,
        }
    }
}

impl Clone for Redis {
    fn clone(&self) -> (r: Redis)
        ensures
            r.url@ == self.url@,
            r.pool_size == self.pool_size,
            r.connection_lifetime == self.connection_lifetime,
    {
        Redis {
            url: self.url.clone(),
            pool_size: self.pool_size,
            connection_lifetime: self.connection_lifetime,
        }
    }
}

impl Clone for Config {
    fn clone(&self) -> (r: Config)
        ensures
            r.db.url@ == self.db.url@,
            r.redis.url@ == self.redis.url@,
            r.http == self.http,
            r.jwt.access_token_secret@ == self.jwt.access_token_secret@,
            r.jwt.refresh_token_secret@ == self.jwt.refresh_token_secret@,
            r.jwt.access_token_duration == self.jwt.access_token_duration,
            r.jwt.refresh_token_duration == self.jwt.refresh_token_duration,
            r.github_oauth.client_id@ == self.github_oauth.client_id@,
            r.github_oauth.client_secret@ == self.github_oauth.client_secret@,
    {
        Config {
            db: self.db.clone(),
            redis: self.redis.clone(),
            http: self.http,
            jwt: self.jwt.clone(),
            github_oauth: self.github_oauth.clone(),
        }
    }
}

pub const DEFAULT_DATABASE_POOL_SIZE: u32 = 10;

/// Thirty minutes, in seconds.
pub const DEFAULT_DATABASE_CONNECTION_LIFETIME: u64 = 1800;

pub const DEFAULT_REDIS_POOL_SIZE: u32 = 10;

/// Thirty minutes, in seconds.
pub const DEFAULT_REDIS_CONNECTION_LIFETIME: u64 = 1800;

pub const DEFAULT_HTTP_PORT: u16 = 3000;

/// The lifetime of an access token where none is set, in minutes.
pub const DEFAULT_JWT_ACCESS_TOKEN_DURATION: i64 = 3600;

/// The lifetime of a refresh token where none is set, in minutes.
pub const DEFAULT_JWT_REFRESH_TOKEN_DURATION: i64 = 86400;

/// A setting, or its default where it is not set.
pub open spec fn or_default<T>(setting: Option<T>, default: T) -> T {
    match setting {
        Some(value) => value,
        None => default,
    }
}

impl Database {
    /// The settings of the relational store, with the defaults for what is
    /// not set: 10 connections, kept for 30 minutes.
    pub fn with_defaults(
        url: String,
        pool_size: Option<u32>,
        connection_lifetime: Option<u64>,
    ) -> (db: Database)
        ensures
            db.url@ == url@,
            db.pool_size == or_default(pool_size, DEFAULT_DATABASE_POOL_SIZE),
            db.connection_lifetime == or_default(
                connection_lifetime,
                DEFAULT_DATABASE_CONNECTION_LIFETIME,
            ),
    {
        Database {
            url,
            pool_size: match pool_size {
                Some(size) => size,
                None => DEFAULT_DATABASE_POOL_SIZE,
            },
            connection_lifetime: match connection_lifetime {
                Some(seconds) => seconds,
                None => DEFAULT_DATABASE_CONNECTION_LIFETIME,
            },
        }
    }
}

impl Redis {
    /// The settings of the key-value store, with the defaults for what is
    /// not set: 10 connections, kept for 30 minutes.
    pub fn with_defaults(
        url: String,
        pool_size: Option<u32>,
        connection_lifetime: Option<u64>,
    ) -> (redis: Redis)
        ensures
            redis.url@ == url@,
            redis.pool_size == or_default(pool_size, DEFAULT_REDIS_POOL_SIZE),
            redis.connection_lifetime == or_default(
                connection_lifetime,
                DEFAULT_REDIS_CONNECTION_LIFETIME,
            ),
    {
        Redis {
            url,
            pool_size: match pool_size {
                Some(size) => size,
                None => DEFAULT_REDIS_POOL_SIZE,
            },
            connection_lifetime: match connection_lifetime {
                Some(seconds) => seconds,
                None => DEFAULT_REDIS_CONNECTION_LIFETIME,
            },
        }
    }
}

impl Http {
    /// The settings of the HTTP server: port 3000 where none is set.
    pub fn with_defaults(port: Option<u16>) -> (http: Http)
        ensures
            http.port == or_default(port, DEFAULT_HTTP_PORT),
    {
        Http {
            port: match port {
                Some(port) => port,
                None => DEFAULT_HTTP_PORT,
            },
        }
    }
}

impl Jwt {
    /// The settings of the tokens, their lifetimes given in minutes, with
    /// the defaults for what is not set. `InvalidArgument` for a lifetime
    /// whose seconds do not fit in 64 bits.
    pub fn with_defaults(
        access_token_secret: String,
        refresh_token_secret: String,
        access_token_minutes: Option<i64>,
        refresh_token_minutes: Option<i64>,
    ) -> (r: Result<Jwt, Error>)
        ensures
            match r {
                Ok(jwt) => jwt.access_token_secret@ == access_token_secret@
                    && jwt.refresh_token_secret@ == refresh_token_secret@
                    && jwt.access_token_duration.seconds == or_default(
                    access_token_minutes,
                    DEFAULT_JWT_ACCESS_TOKEN_DURATION,
                ) * 60 && jwt.refresh_token_duration.seconds == or_default(
                    refresh_token_minutes,
                    DEFAULT_JWT_REFRESH_TOKEN_DURATION,
                ) * 60,
                Err(e) => e@ == ErrorView::InvalidArgument("config: token duration is out of range"@)
                    && !(i64::MIN <= or_default(
                    access_token_minutes,
                    DEFAULT_JWT_ACCESS_TOKEN_DURATION,
                ) * 60 <= i64::MAX && i64::MIN <= or_default(
                    refresh_token_minutes,
                    DEFAULT_JWT_REFRESH_TOKEN_DURATION,
                ) * 60 <= i64::MAX),
            },
    {
        let access_minutes = match access_token_minutes {
            Some(minutes) => minutes,
            None => DEFAULT_JWT_ACCESS_TOKEN_DURATION,
        };
        let refresh_minutes = match refresh_token_minutes {
            Some(minutes) => minutes,
            None => DEFAULT_JWT_REFRESH_TOKEN_DURATION,
        };
        match (Duration::minutes(access_minutes), Duration::minutes(refresh_minutes)) {
            (Some(access_token_duration), Some(refresh_token_duration)) => Ok(
                Jwt {
                    access_token_secret,
                    refresh_token_secret,
                    access_token_duration,
                    refresh_token_duration,
                },
            ),
            _ => Err(
                Error::InvalidArgument(String::from_str("config: token duration is out of range")),
            ),
        }
    }
}

/// What `url::Url::parse` makes of a text: the scheme of the URL, or the
/// words of the error.
pub uninterp spec fn parsed_scheme(url: Seq<char>) -> Result<Seq<char>, Seq<char>>;

/// Parses a text with `url::Url::parse` and reads the scheme with
/// `url::Url::scheme`; a refusal comes back in the words of the crate's
/// error. The outcome depends on the text alone.
#[verifier::external_body]
fn scheme_of(url: &str) -> (r: Result<String, String>)
    ensures
        match r {
            Ok(scheme) => parsed_scheme(url@) == Ok::<Seq<char>, Seq<char>>(scheme@),
            Err(words) => parsed_scheme(url@) == Err::<Seq<char>, Seq<char>>(words@),
        },
{
    match url::Url::parse(url) {
        Ok(parsed) => Ok(parsed.scheme().to_string()),
        Err(err) => Err(err.to_string()),
    }
}

/// The words for a URL of another scheme than the one it must have.
pub open spec fn wrong_scheme(scheme: Seq<char>) -> Seq<char> {
    if scheme == REDIS_SCHEME@ {
        "config: REDIS_URL is not a valid Redis url"@
    } else {
        "config: DATABASE_URL is not a valid Postgres url"@
    }
}

/// What checking a URL against the scheme it must have answers.
pub open spec fn checked_scheme(parsed: Result<Seq<char>, Seq<char>>, scheme: Seq<char>) -> Result<
    (),
    ErrorView,
> {
    match parsed {
        Ok(found) => if found == scheme {
            Ok(())
        } else {
            Err(ErrorView::InvalidArgument(wrong_scheme(scheme)))
        },
        Err(words) => Err(ErrorView::InvalidArgument("url is not valid: "@ + words)),
    }
}

/// Checks what parsing a URL gave against the scheme it must have: a URL
/// that cannot be parsed and a URL of another scheme are both
/// `InvalidArgument`, each in its own words.
pub fn check_scheme(parsed: Result<String, String>, scheme: &str) -> (r: Result<(), Error>)
    ensures
        match (
            r,
            checked_scheme(
                match parsed {
                    Ok(s) => Ok(s@),
                    Err(w) => Err(w@),
                },
                scheme@,
            ),
        ) {
            (Ok(_), Ok(_)) => true,
            (Err(e), Err(expected)) => e@ == expected,
            _ => false,
        },
{
    match parsed {
        Ok(found) => {
            if same_text(found.as_str(), scheme) {
                Ok(())
            } else if same_text(scheme, REDIS_SCHEME) {
                Err(
                    Error::InvalidArgument(
                        String::from_str("config: REDIS_URL is not a valid Redis url"),
                    ),
                )
            } else {
                Err(
                    Error::InvalidArgument(
                        String::from_str("config: DATABASE_URL is not a valid Postgres url"),
                    ),
                )
            }
        },
        Err(words) => Err(
            Error::InvalidArgument(String::from_str("url is not valid: ").concat(words.as_str())),
        ),
    }
}

impl Database {
    /// The URL must be one of the Postgres scheme.
    pub fn validate(&self) -> (r: Result<(), Error>)
        ensures
            match (r, checked_scheme(parsed_scheme(self.url@), POSTGRES_SCHEME@)) {
                (Ok(_), Ok(_)) => true,
                (Err(e), Err(expected)) => e@ == expected,
                _ => false,
            },
    {
        check_scheme(scheme_of(self.url.as_str()), POSTGRES_SCHEME)
    }
}

impl Redis {
    /// The URL must be one of the Redis scheme.
    pub fn validate(&self) -> (r: Result<(), Error>)
        ensures
            match (r, checked_scheme(parsed_scheme(self.url@), REDIS_SCHEME@)) {
                (Ok(_), Ok(_)) => true,
                (Err(e), Err(expected)) => e@ == expected,
                _ => false,
            },
    {
        check_scheme(scheme_of(self.url.as_str()), REDIS_SCHEME)
    }
}

impl Config {
    /// Checks the relational store's URL, then the key-value store's; the
    /// first refusal is the answer.
    pub fn validate(&self) -> (r: Result<(), Error>)
        ensures
            match (r, checked_scheme(parsed_scheme(self.db.url@), POSTGRES_SCHEME@)) {
                (Err(e), Err(expected)) => e@ == expected,
                (Err(e), Ok(_)) => checked_scheme(parsed_scheme(self.redis.url@), REDIS_SCHEME@)
                    == Err::<(), ErrorView>(e@),
                (Ok(_), Ok(_)) => checked_scheme(parsed_scheme(self.redis.url@), REDIS_SCHEME@)
                    is Ok,
                (Ok(_), Err(_)) => false,
            },
    {
        match self.db.validate() {
            Ok(_) => self.redis.validate(),
            Err(e) => Err(e),
        }
    }
}

/// The error for a setting that the environment lacks.
pub fn env_not_found(var: &str) -> (r: Error)
    ensures
        r@ == ErrorView::NotFound("config: "@ + var@ + " env var not found"@),
{
    Error::NotFound(String::from_str("config: ").concat(var).concat(" env var not found"))
}

} // verus!
