//! What the routes read and write, free of any HTTP machinery: the tokens
//! behind a bearer credential, and the shapes of requests and answers.

use vstd::prelude::*;
use vstd::std_specs::convert::FromSpecImpl;
use vstd::string::StringExecFns;

use crate::auth::models::{OAuthCode, OAuthProvider};
use crate::auth::services::{LoginOutput, Register};
use crate::config::Jwt;
use crate::error::{resolved, AppError, Error, ErrorView};
use crate::jwt::models::{
    decoded,
    JwtAccessToken,
    JwtRefreshToken,
    RawJwtAccessToken,
    RawJwtRefreshToken,
};
use crate::jwt::services::{
    decode_access_token,
    decode_refresh_outcome,
    decode_refresh_token,
    DecodeAccessToken,
    DecodeRefreshToken,
};
use crate::jwt::store::JwtStore;
use crate::users::services::GetAuthdUserOutput;

verus! {

/// The access token behind a bearer credential, checked.
#[derive(Debug)]
pub struct ExtractJwtAccessToken(pub JwtAccessToken);

impl ExtractJwtAccessToken {
    /// Checks the text of a bearer credential as an access token, now.
    pub fn from_bearer(token: &str, jwt_config: &Jwt) -> (r: Result<ExtractJwtAccessToken, Error>)
        ensures
            match r {
                Ok(extracted) => extracted.0.raw@ == token@ && exists|now: int|
                    decoded(token@, jwt_config.access_token_secret@, now) == Some(
                        extracted.0.claims@,
                    ),
                Err(e) => e@ == ErrorView::Internal,
            },
    {
        let raw_jwt = RawJwtAccessToken(String::from_str(token));
        match decode_access_token(DecodeAccessToken { raw_jwt }, jwt_config) {
            Ok(jwt) => Ok(ExtractJwtAccessToken(jwt)),
            Err(e) => Err(e),
        }
    }
}

/// The token that was extracted, or the error in its place.
pub open spec fn extracted_token(r: Result<ExtractJwtRefreshToken, Error>) -> Result<
    JwtRefreshToken,
    Error,
> {
    match r {
        Ok(extracted) => Ok(extracted.0),
        Err(e) => Err(e),
    }
}

/// The refresh token behind a bearer credential, checked and not revoked.
#[derive(Debug)]
pub struct ExtractJwtRefreshToken(pub JwtRefreshToken);

impl ExtractJwtRefreshToken {
    /// Checks the text of a bearer credential as a refresh token, now: the
    /// store is asked whether it holds the token as revoked, and a token
    /// that it holds is refused.
    pub fn from_bearer<S: JwtStore>(token: &str, jwt_config: &Jwt, jwt_store: &S) -> (r: Result<
        ExtractJwtRefreshToken,
        Error,
    >)
        ensures
            !S::reclaims() && jwt_store.revoked().contains_key(token@) ==> r is Err,
            S::infallible() && !S::reclaims() && jwt_store.revoked().contains_key(token@) ==> (
            r matches Err(e) && e@ == resolved(AppError::RefreshTokenIsNoLongerValid)),
            exists|now: i64, raw_jwt: RawJwtRefreshToken|
                #![trigger decode_refresh_outcome::<S>(extracted_token(r), jwt_store, raw_jwt, *jwt_config, now)]
                now >= 0 && raw_jwt@ == token@ && decode_refresh_outcome::<S>(
                    extracted_token(r),
                    jwt_store,
                    raw_jwt,
                    *jwt_config,
                    now,
                ),
            r matches Ok(extracted) ==> extracted.0.raw@ == token@ && exists|now: int|
                decoded(token@, jwt_config.refresh_token_secret@, now) == Some(
                    extracted.0.claims@,
                ),
    {
        let raw_jwt = RawJwtRefreshToken(String::from_str(token));
        match decode_refresh_token(DecodeRefreshToken { raw_jwt }, jwt_config, jwt_store) {
            Ok(jwt) => Ok(ExtractJwtRefreshToken(jwt)),
            Err(e) => Err(e),
        }
    }
}

/// The query of a sign-in through a provider.
#[derive(Debug)]
pub struct LoginQuery {
    pub provider: OAuthProvider,
}

/// The body of a sign-in through a provider.
#[derive(Debug)]
pub struct LoginRequest {
    pub code: OAuthCode,
}

/// The body of the answer to a sign-in through a provider: the access
/// token alone. The refresh token travels in a cookie.
#[derive(Debug)]
pub struct LoginResponse {
    pub access_token: RawJwtAccessToken,
}

impl FromSpecImpl<LoginOutput> for LoginResponse {
    open spec fn obeys_from_spec() -> bool {
        true
    }

    open spec fn from_spec(output: LoginOutput) -> LoginResponse {
        LoginResponse { access_token: output.access_token.raw }
    }
}

impl From<LoginOutput> for LoginResponse {
    fn from(output: LoginOutput) -> (r: LoginResponse) {
        LoginResponse { access_token: output.access_token.raw }
    }
}

/// The cookie that carries a refresh token: out of reach of scripts, sent
/// along on top-level navigation only, and over secure connections only.
#[derive(Debug)]
pub struct RefreshCookie {
    pub name: &'static str,
    pub value: String,
    pub http_only: bool,
    pub same_site_lax: bool,
    pub secure: bool,
}

/// The name of the cookie that carries the refresh token.
pub const REFRESH_COOKIE: &'static str = "refresh_token";

/// The cookie for the refresh token of a user who signed in.
pub fn refresh_cookie(output: &LoginOutput) -> (cookie: RefreshCookie)
    ensures
        cookie.name@ == REFRESH_COOKIE@,
        cookie.value@ == output.refresh_token.raw@,
        cookie.http_only,
        cookie.same_site_lax,
        cookie.secure,
{
    RefreshCookie {
        name: REFRESH_COOKIE,
        value: output.refresh_token.raw.0.clone(),
        http_only: true,
        same_site_lax: true,
        secure: true,
    }
}

/// The body of a registration.
#[derive(Debug)]
pub struct RegisterRequest {
    pub username: String,
    pub email: String,
    pub password: String,
}

impl FromSpecImpl<RegisterRequest> for Register {
    open spec fn obeys_from_spec() -> bool {
        true
    }

    open spec fn from_spec(request: RegisterRequest) -> Register {
        Register { username: request.username, email: request.email, password: request.password }
    }
}

impl From<RegisterRequest> for Register {
    fn from(request: RegisterRequest) -> (r: Register) {
        Register { username: request.username, email: request.email, password: request.password }
    }
}

/// The profile that a user is shown of itself.
#[derive(Debug)]
pub struct MeResponse {
    pub id: i64,
    pub username: String,
    pub email: Option<String>,
    /// Unix timestamp of the user's creation.
    pub created_at: i64,
}

impl FromSpecImpl<GetAuthdUserOutput> for MeResponse {
    open spec fn obeys_from_spec() -> bool {
        false
    }

    open spec fn from_spec(output: GetAuthdUserOutput) -> MeResponse {
        arbitrary()
    }
}

impl From<GetAuthdUserOutput> for MeResponse {
    /// Picks the profile out of the user: no password, no connection.
    fn from(output: GetAuthdUserOutput) -> (r: MeResponse)
        ensures
            r.id == output.user@.id,
            r.username@ == output.user@.username,
            match r.email {
                Some(address) => output.user@.email == Some(address@),
                None => output.user@.email is None,
            },
            r.created_at == output.user@.created_at,
    {
        let user = output.user;
        MeResponse {
            id: user.id.into_inner(),
            username: user.username.into_inner(),
            email: match user.email {
                Some(email) => Some(email.into_inner()),
                None => None,
            },
            created_at: user.created_at,
        }
    }
}

} // verus!
