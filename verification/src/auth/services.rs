//! The use cases that sign a user in: through an identity provider, with a
//! password, or by registering; and the one that shows who is signed in.

use vstd::prelude::*;
use vstd::std_specs::convert::FromSpecImpl;

use crate::auth::models::{OAuthCode, OAuthProvider};
use crate::auth::store::{email_text, AsOAuthStore, OAuthLoginResponse, OAuthUserResponse};
use crate::clock;
use crate::config::Jwt;
use crate::error::{resolved, AppError, Error, ErrorView};
use crate::id::IdProvider;
use crate::jwt::models::{
    AccessTokenSubject,
    JwtAccessToken,
    JwtRefreshToken,
    RefreshTokenSubject,
};
use crate::jwt::services::{
    encode_tokens_at,
    is_issued_pair,
    issued_pair,
    EncodeTokens,
    EncodeTokensOutput,
};
use crate::service::ServiceArgs;
use crate::users::models::{
    created,
    fresh_connection,
    merged,
    registered,
    LoginConnection,
    LoginConnectionKind,
    LoginConnectionView,
    User,
    UserKind,
    UserView,
};
use crate::users::services::{lookup_outcome, require_user};
use crate::users::store::{held, lookup_gave, save_answered, UserStore};
use crate::users::values::{
    checked_email,
    checked_password,
    checked_username,
    Email,
    OAuthAccessToken,
    Password,
    Username,
};

verus! {

/// Asks to be signed in through an identity provider.
#[derive(Debug)]
pub struct Login {
    pub provider: OAuthProvider,
    pub code: OAuthCode,
}

impl Clone for Login {
    fn clone(&self) -> (r: Login)
        ensures
            r.provider == self.provider,
            r.code@ == self.code@,
    {
        Login { provider: self.provider, code: self.code.clone() }
    }
}

/// The pair of tokens of a user who signed in.
#[derive(Debug)]
pub struct LoginOutput {
    pub access_token: JwtAccessToken,
    pub refresh_token: JwtRefreshToken,
}

impl FromSpecImpl<EncodeTokensOutput> for LoginOutput {
    open spec fn obeys_from_spec() -> bool {
        true
    }

    open spec fn from_spec(output: EncodeTokensOutput) -> LoginOutput {
        LoginOutput { access_token: output.access_token, refresh_token: output.refresh_token }
    }
}

impl From<EncodeTokensOutput> for LoginOutput {
    fn from(output: EncodeTokensOutput) -> (r: LoginOutput) {
        LoginOutput { access_token: output.access_token, refresh_token: output.refresh_token }
    }
}

impl ServiceArgs for Login {
    type Output = Result<LoginOutput, Error>;
}

/// The user that a sign-in through a provider leaves behind: the user of
/// that name with the connection merged in, or a new user with that one
/// connection where there was none of that name.
pub open spec fn resolved_user(
    existing: Option<UserView>,
    user_id: int,
    username: Seq<char>,
    email: Option<Seq<char>>,
    connection: LoginConnectionView,
    now: int,
) -> UserView {
    match existing {
        Some(found) => merged(found, connection, now),
        None => created(user_id, username, email, connection, now),
    }
}

/// Finds or makes the user behind a profile that a provider reported. A
/// user that exists takes the connection in and stays as it is otherwise,
/// and no identifier is asked for; where none exists, a user is made of the
/// profile, under the one identifier that the source hands out, with the
/// connection as its only one.
pub fn resolve_identity<P: IdProvider<UserKind>>(
    existing: Option<User>,
    profile: OAuthUserResponse,
    login_connection: LoginConnection,
    user_id_provider: &mut P,
    now: i64,
) -> (user: User)
    requires
        existing matches Some(found) ==> found.wf(),
    ensures
        user.wf(),
        user@ == resolved_user(
            match existing {
                Some(found) => Some(found@),
                None => None,
            },
            user@.id,
            profile.username@,
            email_text(profile.email),
            login_connection@,
            now as int,
        ),
        match existing {
            Some(_) => final(user_id_provider).handed_out() == old(user_id_provider).handed_out(),
            None => final(user_id_provider).handed_out() == old(user_id_provider).handed_out().push(user@.id),
        },
{
    match existing {
        Some(mut user) => {
            let _ = user.add_or_update_login_connection_at(login_connection, now);
            user
        },
        None => {
            let id = user_id_provider.get();
            User::new_at(id, profile.username, profile.email, login_connection, now)
        },
    }
}

/// The users after a sign-in of `username` through `provider` at `now`:
/// as before, but for the user of that name, who is the one that the
/// sign-in leaves behind.
pub open spec fn signed_in(
    before: Map<Seq<char>, UserView>,
    after: Map<Seq<char>, UserView>,
    username: Seq<char>,
    provider: OAuthProvider,
    now: int,
) -> bool {
    exists|user_id: int, email: Option<Seq<char>>, connection_id: int, access_token: Seq<char>|
        after == before.insert(
            username,
            #[trigger] resolved_user(
                held(before, username),
                user_id,
                username,
                email,
                fresh_connection(connection_id, provider, access_token, now),
                now,
            ),
        )
}

/// The users after the sign-in, at `now`, of the user that a provider
/// reported under `username` and `email`, with the access token that the
/// provider gave: as before, but for the user of that name, who is the one
/// that the sign-in leaves behind. Only the identifiers are the choice of
/// their sources.
pub open spec fn signed_in_with(
    before: Map<Seq<char>, UserView>,
    after: Map<Seq<char>, UserView>,
    username: Seq<char>,
    email: Option<Seq<char>>,
    provider: OAuthProvider,
    access_token: Seq<char>,
    now: int,
) -> bool {
    exists|user_id: int, connection_id: int|
        after == before.insert(
            username,
            #[trigger] resolved_user(
                held(before, username),
                user_id,
                username,
                email,
                fresh_connection(connection_id, provider, access_token, now),
                now,
            ),
        )
}

/// The user that the sign-in of a reported profile at `now` saves, under
/// the identifiers that the sources handed out.
pub open spec fn sign_in_saves(
    before: Map<Seq<char>, UserView>,
    profile: OAuthUserResponse,
    provider: OAuthProvider,
    access_token: Seq<char>,
    user_id: int,
    connection_id: int,
    now: int,
) -> UserView {
    resolved_user(
        held(before, profile.username@),
        user_id,
        profile.username@,
        email_text(profile.email),
        fresh_connection(connection_id, provider, access_token, now),
        now,
    )
}

/// What signing in the user of a reported profile at `now` comes to, step
/// by step; the first step that fails gives the answer, and no later step
/// is taken.
/// - One identifier is taken for the connection.
/// - The store is asked for the user of the profile's name. Its failure is
///   the answer; nothing is saved and no user identifier is taken.
/// - A user identifier is taken only where the store holds no such user.
/// - The user, under these identifiers, is handed to the store. The store's
///   failure is the answer, and the users are as before.
/// - A pair is issued for the name: the answer is the pair, or `Internal`
///   where none can be issued at `now`; the user is saved in both cases.
pub open spec fn sign_in_outcome<U: UserStore>(
    r: Result<LoginOutput, Error>,
    store: &U,
    after: &U,
    profile: OAuthUserResponse,
    provider: OAuthProvider,
    access_token: Seq<char>,
    user_ids: Seq<int>,
    user_ids_after: Seq<int>,
    connection_ids: Seq<int>,
    connection_ids_after: Seq<int>,
    jwt_config: Jwt,
    now: int,
) -> bool {
    let before = store.users();
    let name = profile.username@;
    let user = sign_in_saves(
        before,
        profile,
        provider,
        access_token,
        user_ids_after.last(),
        connection_ids_after.last(),
        now,
    );
    &&& connection_ids_after == connection_ids.push(connection_ids_after.last())
    &&& {
        ||| r matches Err(e) && lookup_gave(store, profile.username, Err(e)) && after.users()
            == before && user_ids_after == user_ids
        ||| {
            &&& exists|found: Option<User>| #[trigger]
                lookup_gave(store, profile.username, Ok(found)) && (found is Some
                    <==> before.contains_key(name))
            &&& if before.contains_key(name) {
                user_ids_after == user_ids
            } else {
                user_ids_after == user_ids.push(user_ids_after.last())
            }
            &&& {
                ||| r matches Err(e) && save_answered(store, user, after, Err(e)) && after.users()
                    == before
                ||| save_answered(store, user, after, Ok(())) && after.users() == before.insert(
                    name,
                    user,
                ) && match r {
                    Ok(output) => is_issued_pair(
                        EncodeTokensOutput {
                            access_token: output.access_token,
                            refresh_token: output.refresh_token,
                        },
                        name,
                        name,
                        jwt_config,
                        now,
                    ),
                    Err(e) => e@ == ErrorView::Internal && issued_pair(
                        name,
                        name,
                        jwt_config,
                        now,
                    ) is None,
                }
            }
        }
    }
    &&& U::infallible() ==> after.users() == before.insert(name, user) && (r is Ok <==> issued_pair(
        name,
        name,
        jwt_config,
        now,
    ) is Some) && (r matches Err(e) ==> e@ == ErrorView::Internal)
}

/// What the provider answered to the code.
pub open spec fn login_gave<O: AsOAuthStore>(
    oauth_proxy: &O,
    provider: OAuthProvider,
    code: OAuthCode,
    answer: Result<OAuthLoginResponse, Error>,
) -> bool {
    call_ensures(O::login, (oauth_proxy, &provider, code), answer)
}

/// What the provider answered to the access token.
pub open spec fn user_gave<O: AsOAuthStore>(
    oauth_proxy: &O,
    provider: OAuthProvider,
    access_token: OAuthAccessToken,
    answer: Result<OAuthUserResponse, Error>,
) -> bool {
    call_ensures(O::user, (oauth_proxy, &provider, access_token), answer)
}

/// The provider exchanged the code for `answer`, and reported `profile` for
/// the access token of that answer, presented as `presented`.
pub open spec fn provider_answered<O: AsOAuthStore>(
    oauth_proxy: &O,
    provider: OAuthProvider,
    code: OAuthCode,
    answer: OAuthLoginResponse,
    presented: OAuthAccessToken,
    profile: OAuthUserResponse,
) -> bool {
    &&& login_gave(oauth_proxy, provider, code, Ok(answer))
    &&& presented@ == answer.access_token@
    &&& user_gave(oauth_proxy, provider, presented, Ok(profile))
}

/// The provider refused with `refusal`: the code, or the access token that
/// it had given for the code.
pub open spec fn provider_refused<O: AsOAuthStore>(
    oauth_proxy: &O,
    provider: OAuthProvider,
    code: OAuthCode,
    refusal: Error,
) -> bool {
    ||| login_gave(oauth_proxy, provider, code, Err(refusal))
    ||| exists|answer: OAuthLoginResponse, presented: OAuthAccessToken|
        #![trigger login_gave(oauth_proxy, provider, code, Ok(answer)), user_gave(oauth_proxy, provider, presented, Err(refusal))]
        login_gave(oauth_proxy, provider, code, Ok(answer)) && presented@
            == answer.access_token@ && user_gave(oauth_proxy, provider, presented, Err(refusal))
}

/// What a sign-in through a provider at `now` comes to. Either the
/// provider refused, its refusal is the answer, the users are as before and
/// no identifier was taken. Or the provider answered the code of the
/// request with an access token and that token with a profile, and the rest
/// is the sign-in of the user of that profile: see [`sign_in_outcome`].
pub open spec fn login_outcome<O: AsOAuthStore, U: UserStore>(
    oauth_proxy: &O,
    input: Login,
    r: Result<LoginOutput, Error>,
    store: &U,
    after: &U,
    user_ids: Seq<int>,
    user_ids_after: Seq<int>,
    connection_ids: Seq<int>,
    connection_ids_after: Seq<int>,
    jwt_config: Jwt,
    now: int,
) -> bool {
    ||| r matches Err(refusal) && provider_refused(
        oauth_proxy,
        input.provider,
        input.code,
        refusal,
    ) && after.users() == store.users() && user_ids_after == user_ids && connection_ids_after
        == connection_ids
    ||| exists|answer: OAuthLoginResponse, presented: OAuthAccessToken, profile: OAuthUserResponse|
        #![trigger provider_answered(oauth_proxy, input.provider, input.code, answer, presented, profile)]
        provider_answered(oauth_proxy, input.provider, input.code, answer, presented, profile)
            && sign_in_outcome::<U>(
            r,
            store,
            after,
            profile,
            input.provider,
            answer.access_token@,
            user_ids,
            user_ids_after,
            connection_ids,
            connection_ids_after,
            jwt_config,
            now,
        )
}

/// The user that a sign-in saves under known identifiers is one that a
/// sign-in leaves behind.
pub proof fn lemma_sign_in_saves(
    before: Map<Seq<char>, UserView>,
    after: Map<Seq<char>, UserView>,
    profile: OAuthUserResponse,
    provider: OAuthProvider,
    access_token: Seq<char>,
    user_id: int,
    connection_id: int,
    now: int,
)
    requires
        after == before.insert(
            profile.username@,
            sign_in_saves(before, profile, provider, access_token, user_id, connection_id, now),
        ),
    ensures
        signed_in_with(
            before,
            after,
            profile.username@,
            email_text(profile.email),
            provider,
            access_token,
            now,
        ),
        signed_in(before, after, profile.username@, provider, now),
{
    let user = resolved_user(
        held(before, profile.username@),
        user_id,
        profile.username@,
        email_text(profile.email),
        fresh_connection(connection_id, provider, access_token, now),
        now,
    );
    assert(after == before.insert(profile.username@, user));
}

/// Signs in, at `now`, the user whose profile a provider reported for the
/// access token it had given: see [`sign_in_outcome`] for every step and
/// every way it can end. A store that answers every call saves the user;
/// tokens are then owed exactly where a pair can be issued at `now`.
pub fn sign_in_at<U: UserStore, PU: IdProvider<UserKind>, PC: IdProvider<LoginConnectionKind>>(
    provider: OAuthProvider,
    access_token: OAuthAccessToken,
    profile: OAuthUserResponse,
    user_store: &mut U,
    jwt_config: &Jwt,
    user_id_provider: &mut PU,
    login_connection_id_provider: &mut PC,
    now: i64,
) -> (r: Result<LoginOutput, Error>)
    requires
        old(user_store).wf(),
    ensures
        final(user_store).wf(),
        sign_in_outcome::<U>(
            r,
            old(user_store),
            final(user_store),
            profile,
            provider,
            access_token@,
            old(user_id_provider).handed_out(),
            final(user_id_provider).handed_out(),
            old(login_connection_id_provider).handed_out(),
            final(login_connection_id_provider).handed_out(),
            *jwt_config,
            now as int,
        ),
{
    let ghost before = user_store.users();
    let ghost name = profile.username@;
    let ghost email = email_text(profile.email);
    let ghost token = access_token@;
    let ghost reported = profile;
    let login_connection = LoginConnection::new_at(
        login_connection_id_provider.get(),
        provider,
        access_token,
        now,
    );
    let ghost connection = login_connection@;
    assert(login_connection_id_provider.handed_out().last() == connection.id);
    let lookup = user_store.find_by_username(&profile.username);
    assert(lookup_gave(&*old(user_store), reported.username, lookup));
    let existing_user = match lookup {
        Ok(found) => found,
        Err(e) => {
            return Err(e);
        },
    };
    let ghost found = existing_user;
    let user = resolve_identity(existing_user, profile, login_connection, user_id_provider, now);
    assert(user.username@ == name);
    assert(found is None ==> user_id_provider.handed_out().last() == user@.id);
    assert(found is Some <==> before.contains_key(name));
    let ghost wanted = sign_in_saves(
        before,
        reported,
        provider,
        token,
        user_id_provider.handed_out().last(),
        connection.id,
        now as int,
    );
    assert(user@ == wanted);
    let saved = user_store.save(&user);
    assert(save_answered(&*old(user_store), wanted, &*user_store, saved));
    match saved {
        Ok(done) => {
            assert(saved == Ok::<(), Error>(()));
        },
        Err(e) => {
            return Err(e);
        },
    }
    let encode_tokens_inputs = EncodeTokens {
        access_token_subject: AccessTokenSubject(user.username.clone()),
        refresh_token_subject: RefreshTokenSubject(user.username),
    };
    match encode_tokens_at(encode_tokens_inputs, jwt_config, now) {
        Ok(tokens) => Ok(LoginOutput::from(tokens)),
        Err(e) => Err(e),
    }
}

/// Signs a user in through an identity provider now: see [`login_at`] and
/// [`login_outcome`], for the moment that the clock gives.
pub fn login<O: AsOAuthStore, U: UserStore, PU: IdProvider<UserKind>, PC: IdProvider<LoginConnectionKind>>(
    input: Login,
    oauth_proxy: &O,
    user_store: &mut U,
    jwt_config: &Jwt,
    user_id_provider: &mut PU,
    login_connection_id_provider: &mut PC,
) -> (r: Result<LoginOutput, Error>)
    requires
        old(user_store).wf(),
    ensures
        final(user_store).wf(),
        exists|now: int|
            #![trigger login_outcome::<O, U>(oauth_proxy, input, r, old(user_store), final(user_store), old(user_id_provider).handed_out(), final(user_id_provider).handed_out(), old(login_connection_id_provider).handed_out(), final(login_connection_id_provider).handed_out(), *jwt_config, now)]
            now >= 0 && login_outcome::<O, U>(
                oauth_proxy,
                input,
                r,
                old(user_store),
                final(user_store),
                old(user_id_provider).handed_out(),
                final(user_id_provider).handed_out(),
                old(login_connection_id_provider).handed_out(),
                final(login_connection_id_provider).handed_out(),
                *jwt_config,
                now,
            ),
        r matches Ok(output) ==> output.refresh_token.claims.sub@ == output.access_token.claims.sub@
            && exists|now: int|
            signed_in(
                old(user_store).users(),
                final(user_store).users(),
                output.access_token.claims.sub@,
                input.provider,
                now,
            ),
        r is Err ==> final(user_store).users() == old(user_store).users() || exists|
            username: Seq<char>,
            now: int,
        |
            signed_in(
                old(user_store).users(),
                final(user_store).users(),
                username,
                input.provider,
                now,
            ),
{
    let now = clock::now();
    login_at(
        input,
        oauth_proxy,
        user_store,
        jwt_config,
        user_id_provider,
        login_connection_id_provider,
        now,
    )
}

/// Signs a user in through an identity provider at `now`. The code of the
/// request is handed to the adapter of the request's provider, and the
/// access token that comes back to the same adapter for the profile; a
/// refusal of either is the answer, and nothing is saved. The user of the
/// profile is then signed in: see [`sign_in_at`].
pub fn login_at<O: AsOAuthStore, U: UserStore, PU: IdProvider<UserKind>, PC: IdProvider<LoginConnectionKind>>(
    input: Login,
    oauth_proxy: &O,
    user_store: &mut U,
    jwt_config: &Jwt,
    user_id_provider: &mut PU,
    login_connection_id_provider: &mut PC,
    now: i64,
) -> (r: Result<LoginOutput, Error>)
    requires
        old(user_store).wf(),
    ensures
        final(user_store).wf(),
        login_outcome::<O, U>(
            oauth_proxy,
            input,
            r,
            old(user_store),
            final(user_store),
            old(user_id_provider).handed_out(),
            final(user_id_provider).handed_out(),
            old(login_connection_id_provider).handed_out(),
            final(login_connection_id_provider).handed_out(),
            *jwt_config,
            now as int,
        ),
        r matches Ok(output) ==> signed_in(
            old(user_store).users(),
            final(user_store).users(),
            output.access_token.claims.sub@,
            input.provider,
            now as int,
        ) && is_issued_pair(
            EncodeTokensOutput {
                access_token: output.access_token,
                refresh_token: output.refresh_token,
            },
            output.access_token.claims.sub@,
            output.access_token.claims.sub@,
            *jwt_config,
            now as int,
        ),
        r is Err ==> final(user_store).users() == old(user_store).users() || exists|
            username: Seq<char>,
        |
            signed_in(
                old(user_store).users(),
                final(user_store).users(),
                username,
                input.provider,
                now as int,
            ) && issued_pair(username, username, *jwt_config, now as int) is None,
{
    let login_response = match oauth_proxy.login(&input.provider, input.code) {
        Ok(response) => response,
        Err(e) => {
            assert(login_gave(oauth_proxy, input.provider, input.code, Err(e)));
            return Err(e);
        },
    };
    let ghost answer = login_response;
    assert(login_gave(oauth_proxy, input.provider, input.code, Ok(answer)));
    let presented = login_response.access_token.clone();
    let ghost shown = presented;
    let user_response = match oauth_proxy.user(&input.provider, presented) {
        Ok(response) => response,
        Err(e) => {
            assert(user_gave(oauth_proxy, input.provider, shown, Err(e)));
            return Err(e);
        },
    };
    let ghost profile = user_response;
    assert(provider_answered(oauth_proxy, input.provider, input.code, answer, shown, profile));
    let r = sign_in_at(
        input.provider,
        login_response.access_token,
        user_response,
        user_store,
        jwt_config,
        user_id_provider,
        login_connection_id_provider,
        now,
    );
    proof {
        let before = old(user_store).users();
        let after = user_store.users();
        if after == before.insert(
            profile.username@,
            sign_in_saves(
                before,
                profile,
                input.provider,
                answer.access_token@,
                user_id_provider.handed_out().last(),
                login_connection_id_provider.handed_out().last(),
                now as int,
            ),
        ) {
            lemma_sign_in_saves(
                before,
                after,
                profile,
                input.provider,
                answer.access_token@,
                user_id_provider.handed_out().last(),
                login_connection_id_provider.handed_out().last(),
                now as int,
            );
        }
    }
    r
}

/// Asks to be signed in with a password.
#[derive(Debug)]
pub struct LoginWithPassword {
    pub username: String,
    pub password: String,
}

impl ServiceArgs for LoginWithPassword {
    type Output = Result<LoginOutput, Error>;
}

/// What checking a password against the user of a name answers: the user,
/// where there is one and the password is the one it registered with;
/// `UserNotFound` where there is none, `InvalidPassword` else.
pub open spec fn credentials_check(found: Option<UserView>, password: Seq<char>) -> Result<
    UserView,
    AppError,
> {
    match found {
        None => Err(AppError::UserNotFound),
        Some(user) => if user.password == Some(password) {
            Ok(user)
        } else {
            Err(AppError::InvalidPassword)
        },
    }
}

/// Checks a password against the user that a lookup found.
pub fn check_credentials(found: Option<User>, password: &Password) -> (r: Result<User, AppError>)
    ensures
        match (
            r,
            credentials_check(
                match found {
                    Some(user) => Some(user@),
                    None => None,
                },
                password@,
            ),
        ) {
            (Ok(user), Ok(expected)) => user@ == expected,
            (Err(e), Err(expected)) => e == expected,
            _ => false,
        },
{
    match found {
        None => Err(AppError::UserNotFound),
        Some(user) => {
            let matches = match &user.password {
                Some(stored) => stored.matches(password),
                None => false,
            };
            if matches {
                Ok(user)
            } else {
                Err(AppError::InvalidPassword)
            }
        },
    }
}

/// What a sign-in with a password at `now` comes to, step by step; the
/// first step that refuses or fails gives the answer.
/// - The name is checked, then the password; a refusal is the answer.
/// - The store is asked for the user of that name. Its failure is the
///   answer.
/// - A user that is not there is `NotFound`; a password that is not the
///   user's is `InvalidArgument`.
/// - A pair is issued for the name: the answer is the pair, or `Internal`
///   where none can be issued at `now`.
pub open spec fn password_login_outcome<U: UserStore>(
    r: Result<LoginOutput, Error>,
    store: &U,
    input: LoginWithPassword,
    jwt_config: Jwt,
    now: int,
) -> bool {
    let name = input.username@;
    match checked_username(name) {
        Err(refusal) => r matches Err(e) && e@ == resolved(refusal),
        Ok(_) => match checked_password(input.password@) {
            Err(refusal) => r matches Err(e) && e@ == resolved(refusal),
            Ok(_) => {
                ||| r matches Err(e) && name_lookup_gave(store, name, Err(e))
                ||| {
                    &&& exists|found: Option<User>| #[trigger]
                        name_lookup_gave(store, name, Ok(found)) && (found is Some
                            <==> store.users().contains_key(name))
                    &&& match credentials_check(held(store.users(), name), input.password@) {
                        Err(refusal) => r matches Err(e) && e@ == resolved(refusal),
                        Ok(_) => match r {
                            Ok(output) => is_issued_pair(
                                EncodeTokensOutput {
                                    access_token: output.access_token,
                                    refresh_token: output.refresh_token,
                                },
                                name,
                                name,
                                jwt_config,
                                now,
                            ),
                            Err(e) => e@ == ErrorView::Internal && issued_pair(
                                name,
                                name,
                                jwt_config,
                                now,
                            ) is None,
                        },
                    }
                }
            },
        },
    }
}

/// Signs a user in with a password now: see [`login_with_password_at`].
/// Which refusal comes does not hang on the moment: a name or a password
/// that cannot be one, a user that is not there, a password that is not the
/// user's. Only whether a pair can be issued does.
pub fn login_with_password<U: UserStore>(
    input: LoginWithPassword,
    user_store: &U,
    jwt_config: &Jwt,
) -> (r: Result<LoginOutput, Error>)
    requires
        user_store.wf(),
    ensures
        exists|now: int|
            #![trigger password_login_outcome::<U>(r, user_store, input, *jwt_config, now)]
            now >= 0 && password_login_outcome::<U>(r, user_store, input, *jwt_config, now),
        r matches Ok(output) ==> output.access_token.claims.sub@ == input.username@
            && output.refresh_token.claims.sub@ == input.username@
            && user_store.users().contains_key(input.username@)
            && user_store.users()[input.username@].password == Some(input.password@)
            && exists|now: int|
            is_issued_pair(
                EncodeTokensOutput {
                    access_token: output.access_token,
                    refresh_token: output.refresh_token,
                },
                input.username@,
                input.username@,
                *jwt_config,
                now,
            ),
        checked_username(input.username@) matches Err(refusal) ==> (r matches Err(e) && e@
            == resolved(refusal)),
        checked_username(input.username@) is Ok ==> (checked_password(input.password@) matches Err(
            refusal,
        ) ==> (r matches Err(e) && e@ == resolved(refusal))),
        U::infallible() && checked_username(input.username@) is Ok && checked_password(
            input.password@,
        ) is Ok ==> match credentials_check(
            held(user_store.users(), input.username@),
            input.password@,
        ) {
            Err(refusal) => r matches Err(e) && e@ == resolved(refusal),
            Ok(_) => match r {
                Ok(_) => true,
                Err(e) => e@ == ErrorView::Internal && exists|now: int|
                    issued_pair(input.username@, input.username@, *jwt_config, now) is None,
            },
        },
{
    let now = clock::now();
    login_with_password_at(input, user_store, jwt_config, now)
}

/// Signs a user in with a password at `now`. A name or a password that
/// cannot be one is refused as it is at registration; then the user must
/// exist (`NotFound`) and the password must be the one it registered with
/// (`InvalidArgument`); then a pair of tokens is issued for the name.
pub fn login_with_password_at<U: UserStore>(
    input: LoginWithPassword,
    user_store: &U,
    jwt_config: &Jwt,
    now: i64,
) -> (r: Result<LoginOutput, Error>)
    requires
        user_store.wf(),
    ensures
        password_login_outcome::<U>(r, user_store, input, *jwt_config, now as int),
        checked_username(input.username@) matches Err(refusal) ==> (r matches Err(e) && e@
            == resolved(refusal)),
        checked_username(input.username@) is Ok ==> (checked_password(input.password@) matches Err(
            refusal,
        ) ==> (r matches Err(e) && e@ == resolved(refusal))),
        r matches Ok(output) ==> credentials_check(
            held(user_store.users(), input.username@),
            input.password@,
        ) is Ok && is_issued_pair(
            EncodeTokensOutput {
                access_token: output.access_token,
                refresh_token: output.refresh_token,
            },
            input.username@,
            input.username@,
            *jwt_config,
            now as int,
        ),
        U::infallible() && checked_username(input.username@) is Ok && checked_password(
            input.password@,
        ) is Ok ==> match credentials_check(
            held(user_store.users(), input.username@),
            input.password@,
        ) {
            Err(refusal) => r matches Err(e) && e@ == resolved(refusal),
            Ok(_) => match r {
                Ok(_) => true,
                Err(e) => e@ == ErrorView::Internal && issued_pair(
                    input.username@,
                    input.username@,
                    *jwt_config,
                    now as int,
                ) is None,
            },
        },
{
    let username = match Username::parse(input.username) {
        Ok(username) => username,
        Err(refusal) => {
            return Err(Error::from(refusal));
        },
    };
    let password = match Password::parse(input.password) {
        Ok(password) => password,
        Err(refusal) => {
            return Err(Error::from(refusal));
        },
    };
    let ghost name = username@;
    let ghost asked = username;
    let lookup = user_store.find_by_username(&username);
    assert(lookup_gave(user_store, asked, lookup));
    assert(name_lookup_gave(user_store, name, lookup));
    let found = match lookup {
        Ok(found) => found,
        Err(e) => {
            return Err(e);
        },
    };
    assert(found is Some <==> user_store.users().contains_key(name));
    let user = match check_credentials(found, &password) {
        Ok(user) => user,
        Err(refusal) => {
            return Err(Error::from(refusal));
        },
    };
    let encode_tokens_inputs = EncodeTokens {
        access_token_subject: AccessTokenSubject(username.clone()),
        refresh_token_subject: RefreshTokenSubject(username),
    };
    match encode_tokens_at(encode_tokens_inputs, jwt_config, now) {
        Ok(tokens) => Ok(LoginOutput::from(tokens)),
        Err(e) => Err(e),
    }
}

/// Asks for a new user with a password.
#[derive(Debug)]
pub struct Register {
    pub username: String,
    pub email: String,
    pub password: String,
}

impl ServiceArgs for Register {
    type Output = Result<(JwtAccessToken, JwtRefreshToken), Error>;
}

/// What checking the e-mail address and the password of a registration
/// answers: the first refusal among the address's and the password's.
pub open spec fn checked_profile(email: Seq<char>, password: Seq<char>) -> Result<(), AppError> {
    match checked_email(email) {
        Err(refusal) => Err(refusal),
        Ok(_) => match checked_password(password) {
            Err(refusal) => Err(refusal),
            Ok(_) => Ok(()),
        },
    }
}

/// Checks the e-mail address, then the password, of a registration.
pub fn validate_profile(email: String, password: String) -> (r: Result<(Email, Password), AppError>)
    ensures
        match (r, checked_profile(email@, password@)) {
            (Ok(values), Ok(_)) => values.0@ == email@ && values.1@ == password@,
            (Err(e), Err(expected)) => e == expected,
            _ => false,
        },
{
    let email = match Email::parse(email) {
        Ok(email) => email,
        Err(refusal) => {
            return Err(refusal);
        },
    };
    let password = match Password::parse(password) {
        Ok(password) => password,
        Err(refusal) => {
            return Err(refusal);
        },
    };
    Ok((email, password))
}

/// A name is free where no user was found under it; a name that is taken
/// is refused with `UserAlreadyExists`.
pub fn require_free(found: &Option<User>) -> (r: Result<(), AppError>)
    ensures
        match r {
            Ok(_) => found is None,
            Err(e) => found is Some && e == AppError::UserAlreadyExists,
        },
{
    match found {
        Some(_) => Err(AppError::UserAlreadyExists),
        None => Ok(()),
    }
}

/// The users after the registration of `username` at `now`: as before, and
/// the new user.
pub open spec fn has_registered(
    before: Map<Seq<char>, UserView>,
    after: Map<Seq<char>, UserView>,
    username: Seq<char>,
    email: Seq<char>,
    password: Seq<char>,
    now: int,
) -> bool {
    exists|user_id: int|
        after == before.insert(
            username,
            #[trigger] registered(user_id, username, email, password, now),
        )
}

/// What the store answered when it was asked for the user of a name, given
/// as its text.
pub open spec fn name_lookup_gave<U: UserStore>(
    store: &U,
    name: Seq<char>,
    answer: Result<Option<User>, Error>,
) -> bool {
    exists|username: Username| username@ == name && #[trigger] lookup_gave(store, username, answer)
}

/// What a registration at `now` comes to, step by step; the first step
/// that refuses or fails gives the answer, and no later step is taken.
/// - The username is checked; its refusal is the answer.
/// - The store is asked for the user of that name. Its failure is the
///   answer. A name that is taken is `AlreadyExists`, whatever the e-mail
///   address and the password are.
/// - The e-mail address and the password are checked; the first refusal is
///   the answer.
/// - One identifier is taken, and the user under it is handed to the store.
///   The store's failure is the answer.
/// - A pair is issued for the name: the answer is the pair, or `Internal`
///   where none can be issued at `now`; the user is saved in both cases.
/// Up to the saving, the users are as before and no identifier is taken.
pub open spec fn register_outcome<U: UserStore>(
    r: Result<(JwtAccessToken, JwtRefreshToken), Error>,
    store: &U,
    after: &U,
    input: Register,
    user_ids: Seq<int>,
    user_ids_after: Seq<int>,
    jwt_config: Jwt,
    now: int,
) -> bool {
    let before = store.users();
    let name = input.username@;
    let user = registered(user_ids_after.last(), name, input.email@, input.password@, now);
    let untouched = after.users() == before && user_ids_after == user_ids;
    match checked_username(name) {
        Err(refusal) => r matches Err(e) && e@ == resolved(refusal) && untouched,
        Ok(_) => {
            ||| r matches Err(e) && name_lookup_gave(store, name, Err(e)) && untouched
            ||| {
                &&& exists|found: Option<User>| #[trigger]
                    name_lookup_gave(store, name, Ok(found)) && (found is Some
                        <==> before.contains_key(name))
                &&& if before.contains_key(name) {
                    r matches Err(e) && e@ == resolved(AppError::UserAlreadyExists) && untouched
                } else {
                    match checked_profile(input.email@, input.password@) {
                        Err(refusal) => r matches Err(e) && e@ == resolved(refusal) && untouched,
                        Ok(_) => {
                            &&& user_ids_after == user_ids.push(user_ids_after.last())
                            &&& {
                                ||| r matches Err(e) && save_answered(store, user, after, Err(e))
                                    && after.users() == before
                                ||| save_answered(store, user, after, Ok(())) && after.users()
                                    == before.insert(name, user) && match r {
                                    Ok(pair) => is_issued_pair(
                                        EncodeTokensOutput {
                                            access_token: pair.0,
                                            refresh_token: pair.1,
                                        },
                                        name,
                                        name,
                                        jwt_config,
                                        now,
                                    ),
                                    Err(e) => e@ == ErrorView::Internal && issued_pair(
                                        name,
                                        name,
                                        jwt_config,
                                        now,
                                    ) is None,
                                }
                            }
                        },
                    }
                }
            }
        },
    }
}

/// What a registration at `now` comes to with a store that answers every
/// call; see [`register_outcome`] for any store.
pub open spec fn register_answer<U: UserStore>(
    r: Result<(JwtAccessToken, JwtRefreshToken), Error>,
    store: &U,
    after: &U,
    input: Register,
    user_ids_after: Seq<int>,
    jwt_config: Jwt,
    now: int,
) -> bool {
    let before = store.users();
    let name = input.username@;
    let user = registered(user_ids_after.last(), name, input.email@, input.password@, now);
    match checked_username(name) {
        Err(refusal) => r matches Err(e) && e@ == resolved(refusal) && after.users() == before,
        Ok(_) => if before.contains_key(name) {
            r matches Err(e) && e@ == resolved(AppError::UserAlreadyExists) && after.users()
                == before
        } else {
            match checked_profile(input.email@, input.password@) {
                Err(refusal) => r matches Err(e) && e@ == resolved(refusal) && after.users()
                    == before,
                Ok(_) => after.users() == before.insert(name, user) && match r {
                    Ok(pair) => is_issued_pair(
                        EncodeTokensOutput { access_token: pair.0, refresh_token: pair.1 },
                        name,
                        name,
                        jwt_config,
                        now,
                    ),
                    Err(e) => e@ == ErrorView::Internal && issued_pair(
                        name,
                        name,
                        jwt_config,
                        now,
                    ) is None,
                },
            }
        },
    }
}

/// Registers a user now: see [`register_at`] and [`register_outcome`], for
/// the moment that the clock gives.
pub fn register<U: UserStore, P: IdProvider<UserKind>>(
    input: Register,
    user_store: &mut U,
    user_id_provider: &mut P,
    jwt_config: &Jwt,
) -> (r: Result<(JwtAccessToken, JwtRefreshToken), Error>)
    requires
        old(user_store).wf(),
    ensures
        final(user_store).wf(),
        exists|now: int|
            #![trigger register_outcome::<U>(r, old(user_store), final(user_store), input, old(user_id_provider).handed_out(), final(user_id_provider).handed_out(), *jwt_config, now)]
            now >= 0 && register_outcome::<U>(
                r,
                old(user_store),
                final(user_store),
                input,
                old(user_id_provider).handed_out(),
                final(user_id_provider).handed_out(),
                *jwt_config,
                now,
            ) && (U::infallible() ==> register_answer::<U>(
                r,
                old(user_store),
                final(user_store),
                input,
                final(user_id_provider).handed_out(),
                *jwt_config,
                now,
            )),
        checked_username(input.username@) matches Err(refusal) ==> (r matches Err(e) && e@
            == resolved(refusal)) && final(user_store).users() == old(user_store).users(),
        old(user_store).users().contains_key(input.username@) ==> r is Err && final(user_store).users() == old(user_store).users(),
        U::infallible() && checked_username(input.username@) is Ok && old(user_store).users().contains_key(input.username@) ==> (r matches Err(e) && e@ == resolved(
            AppError::UserAlreadyExists,
        )),
        r matches Ok(pair) ==> pair.0.claims.sub@ == input.username@ && pair.1.claims.sub@
            == input.username@ && exists|now: int|
            has_registered(
                old(user_store).users(),
                final(user_store).users(),
                input.username@,
                input.email@,
                input.password@,
                now,
            ),
{
    let now = clock::now();
    register_at(input, user_store, user_id_provider, jwt_config, now)
}

/// Registers a user at `now`. The username is checked; the name must be
/// free, and a name that is taken is `AlreadyExists` whatever else the
/// request holds; the e-mail address and the password are checked; the user
/// is made under a fresh identifier and saved; then a pair of tokens is
/// issued for the name. A refusal leaves the users as they were. See
/// [`register_outcome`] for every way it can end.
pub fn register_at<U: UserStore, P: IdProvider<UserKind>>(
    input: Register,
    user_store: &mut U,
    user_id_provider: &mut P,
    jwt_config: &Jwt,
    now: i64,
) -> (r: Result<(JwtAccessToken, JwtRefreshToken), Error>)
    requires
        old(user_store).wf(),
    ensures
        final(user_store).wf(),
        register_outcome::<U>(
            r,
            old(user_store),
            final(user_store),
            input,
            old(user_id_provider).handed_out(),
            final(user_id_provider).handed_out(),
            *jwt_config,
            now as int,
        ),
        U::infallible() ==> register_answer::<U>(
            r,
            old(user_store),
            final(user_store),
            input,
            final(user_id_provider).handed_out(),
            *jwt_config,
            now as int,
        ),
        checked_username(input.username@) matches Err(refusal) ==> (r matches Err(e) && e@
            == resolved(refusal)) && final(user_store).users() == old(user_store).users(),
        old(user_store).users().contains_key(input.username@) ==> r is Err && final(user_store).users() == old(user_store).users(),
        U::infallible() && checked_username(input.username@) is Ok && old(user_store).users().contains_key(input.username@) ==> (r matches Err(e) && e@ == resolved(
            AppError::UserAlreadyExists,
        )),
        r matches Ok(pair) ==> checked_username(input.username@) is Ok && checked_profile(
            input.email@,
            input.password@,
        ) is Ok && !old(user_store).users().contains_key(input.username@) && has_registered(
            old(user_store).users(),
            final(user_store).users(),
            input.username@,
            input.email@,
            input.password@,
            now as int,
        ) && is_issued_pair(
            EncodeTokensOutput { access_token: pair.0, refresh_token: pair.1 },
            input.username@,
            input.username@,
            *jwt_config,
            now as int,
        ),
        r is Err ==> final(user_store).users() == old(user_store).users() || (has_registered(
            old(user_store).users(),
            final(user_store).users(),
            input.username@,
            input.email@,
            input.password@,
            now as int,
        ) && issued_pair(input.username@, input.username@, *jwt_config, now as int)
            is None),
{
    let ghost before = user_store.users();
    let ghost name = input.username@;
    let ghost address = input.email@;
    let ghost secret = input.password@;
    let username = match Username::parse(input.username) {
        Ok(username) => username,
        Err(refusal) => {
            return Err(Error::from(refusal));
        },
    };
    let ghost asked = username;
    let lookup = user_store.find_by_username(&username);
    assert(lookup_gave(&*old(user_store), asked, lookup));
    assert(name_lookup_gave(&*old(user_store), name, lookup));
    let found = match lookup {
        Ok(found) => found,
        Err(e) => {
            return Err(e);
        },
    };
    assert(found is Some <==> before.contains_key(name));
    match require_free(&found) {
        Ok(_) => {},
        Err(refusal) => {
            return Err(Error::from(refusal));
        },
    }
    let (email, password) = match validate_profile(input.email, input.password) {
        Ok(values) => values,
        Err(refusal) => {
            return Err(Error::from(refusal));
        },
    };
    let id = user_id_provider.get();
    assert(user_id_provider.handed_out().last() == id@);
    let user = User::registered_at(id, username.clone(), email, password, now);
    let ghost wanted = registered(id@, name, address, secret, now as int);
    assert(user@ == wanted);
    let saved = user_store.save(&user);
    assert(save_answered(&*old(user_store), wanted, &*user_store, saved));
    match saved {
        Ok(done) => {
            assert(saved == Ok::<(), Error>(()));
        },
        Err(e) => {
            return Err(e);
        },
    }
    proof {
        assert(has_registered(before, user_store.users(), name, address, secret, now as int));
    }
    let encode_tokens_inputs = EncodeTokens {
        access_token_subject: AccessTokenSubject(username.clone()),
        refresh_token_subject: RefreshTokenSubject(username),
    };
    match encode_tokens_at(encode_tokens_inputs, jwt_config, now) {
        Ok(tokens) => Ok((tokens.access_token, tokens.refresh_token)),
        Err(e) => Err(e),
    }
}

/// Asks who an access token speaks for.
#[derive(Debug)]
pub struct Me {
    pub subject: AccessTokenSubject,
}

impl ServiceArgs for Me {
    type Output = Result<User, Error>;
}

/// Looks up the user that an access token speaks for, by the subject: see
/// [`lookup_outcome`]. The store is only read.
pub fn me<U: UserStore>(input: Me, user_store: &U) -> (r: Result<User, Error>)
    requires
        user_store.wf(),
    ensures
        lookup_outcome(user_store, input.subject.0, r),
        match r {
            Ok(user) => user_store.users().contains_key(input.subject@) && user@
                == user_store.users()[input.subject@],
            Err(e) => U::infallible() ==> e@ == resolved(AppError::UserNotFound)
                && !user_store.users().contains_key(input.subject@),
        },
{
    let username = input.subject.into_inner();
    let found = match user_store.find_by_username(&username) {
        Ok(found) => found,
        Err(e) => {
            return Err(e);
        },
    };
    require_user(found)
}

} // verus!
