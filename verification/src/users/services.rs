//! The use case that looks up the user behind an access token.

use vstd::prelude::*;

use crate::error::{resolved, AppError, Error};
use crate::jwt::models::JwtAccessToken;
use crate::service::ServiceArgs;
use crate::users::models::User;
use crate::users::store::{lookup_gave, UserStore};
use crate::users::values::Username;

verus! {

/// Asks for the user that an access token speaks for.
#[derive(Debug)]
pub struct GetAuthdUser {
    pub jwt: JwtAccessToken,
}

/// The user that the access token speaks for.
#[derive(Debug)]
pub struct GetAuthdUserOutput {
    pub user: User,
}

impl ServiceArgs for GetAuthdUser {
    type Output = Result<GetAuthdUserOutput, Error>;
}

/// The user that a lookup found, or `NotFound` for a lookup that found
/// none: a user may be gone although a token still names it.
pub fn require_user(found: Option<User>) -> (r: Result<User, Error>)
    ensures
        match (found, r) {
            (Some(user), Ok(same)) => same == user,
            (None, Err(e)) => e@ == resolved(AppError::UserNotFound),
            _ => false,
        },
{
    match found {
        Some(user) => Ok(user),
        None => Err(Error::from(AppError::UserNotFound)),
    }
}

/// What looking a user up comes to for a use case that needs the user: a
/// failure of the store is the answer as it came, a user that is not there
/// is `NotFound`, and a user that is there is the answer.
pub open spec fn lookup_outcome<U: UserStore>(
    store: &U,
    username: Username,
    r: Result<User, Error>,
) -> bool {
    match r {
        Ok(user) => lookup_gave(store, username, Ok(Some(user))),
        Err(e) => lookup_gave(store, username, Err(e)) || (lookup_gave(store, username, Ok(None))
            && e@ == resolved(AppError::UserNotFound)),
    }
}

/// Looks up the user that an access token speaks for, by the token's
/// subject: see [`lookup_outcome`]. The store is only read.
pub fn get_authd_user<U: UserStore>(input: GetAuthdUser, user_store: &U) -> (r: Result<
    GetAuthdUserOutput,
    Error,
>)
    requires
        user_store.wf(),
    ensures
        lookup_outcome(
            user_store,
            input.jwt.claims.sub.0,
            match r {
                Ok(output) => Ok(output.user),
                Err(e) => Err(e),
            },
        ),
        match r {
            Ok(output) => user_store.users().contains_key(input.jwt.claims.sub@) && output.user@
                == user_store.users()[input.jwt.claims.sub@],
            Err(e) => U::infallible() ==> e@ == resolved(AppError::UserNotFound)
                && !user_store.users().contains_key(input.jwt.claims.sub@),
        },
{
    let username = input.jwt.claims.sub.into_inner();
    let found = match user_store.find_by_username(&username) {
        Ok(found) => found,
        Err(e) => {
            return Err(e);
        },
    };
    match require_user(found) {
        Ok(user) => Ok(GetAuthdUserOutput { user }),
        Err(e) => Err(e),
    }
}

} // verus!
