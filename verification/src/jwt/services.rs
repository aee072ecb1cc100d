//! The use cases on tokens: issuing a pair, checking a token of either
//! class, revoking a refresh token, and trading one for a new pair.

use vstd::prelude::*;
use vstd::std_specs::convert::FromSpecImpl;

use crate::clock;
use crate::config::Jwt;
use crate::error::{resolved, AppError, Error, ErrorView};
use crate::jwt::models::{
    decoded,
    issued,
    reads_back,
    AccessTokenSubject,
    JwtAccessToken,
    JwtRefreshToken,
    RawJwtAccessToken,
    RawJwtRefreshToken,
    RefreshTokenSubject,
};
use crate::jwt::store::{
    may_answer,
    revocation_answered,
    revocation_gave,
    still_revoked,
    JwtStore,
};
use crate::service::{Service, ServiceArgs};

verus! {

/// Asks for a pair of tokens, one of each class.
#[derive(Debug)]
pub struct EncodeTokens {
    pub access_token_subject: AccessTokenSubject,
    pub refresh_token_subject: RefreshTokenSubject,
}

/// A pair of tokens, one of each class.
#[derive(Debug)]
pub struct EncodeTokensOutput {
    pub access_token: JwtAccessToken,
    pub refresh_token: JwtRefreshToken,
}

impl ServiceArgs for EncodeTokens {
    type Output = Result<EncodeTokensOutput, Error>;
}

/// The pair that issuing at `now` gives: for each class the token and its
/// expiry, under the secret and the lifetime of the class. `None` where
/// either token cannot be issued.
pub open spec fn issued_pair(
    access_subject: Seq<char>,
    refresh_subject: Seq<char>,
    config: Jwt,
    now: int,
) -> Option<((Seq<char>, int), (Seq<char>, int))> {
    match issued(
        access_subject,
        config.access_token_duration.seconds as int,
        config.access_token_secret@,
        now,
    ) {
        Some(access) => match issued(
            refresh_subject,
            config.refresh_token_duration.seconds as int,
            config.refresh_token_secret@,
            now,
        ) {
            Some(refresh) => Some((access, refresh)),
            None => None,
        },
        None => None,
    }
}

/// The pair is the one that issuing at `now` gives for the two subjects:
/// each token expires its class's lifetime after `now`, and decodes under
/// the secret of its class to its claims until then.
pub open spec fn is_issued_pair(
    pair: EncodeTokensOutput,
    access_subject: Seq<char>,
    refresh_subject: Seq<char>,
    config: Jwt,
    now: int,
) -> bool {
    &&& issued_pair(access_subject, refresh_subject, config, now) == Some(
        (
            (pair.access_token.raw@, pair.access_token.claims.exp as int),
            (pair.refresh_token.raw@, pair.refresh_token.claims.exp as int),
        ),
    )
    &&& pair.access_token.claims.sub@ == access_subject
    &&& pair.refresh_token.claims.sub@ == refresh_subject
    &&& pair.access_token.claims.exp == now + config.access_token_duration.seconds
    &&& pair.refresh_token.claims.exp == now + config.refresh_token_duration.seconds
    &&& reads_back(
        pair.access_token.raw@,
        config.access_token_secret@,
        pair.access_token.claims@,
    )
    &&& reads_back(
        pair.refresh_token.raw@,
        config.refresh_token_secret@,
        pair.refresh_token.claims@,
    )
}

/// Issues a pair of tokens now: see [`encode_tokens_at`].
pub fn encode_tokens(input: EncodeTokens, jwt_config: &Jwt) -> (r: Result<EncodeTokensOutput, Error>)
    ensures
        match r {
            Ok(pair) => exists|now: int|
                now >= 0 && is_issued_pair(
                    pair,
                    input.access_token_subject@,
                    input.refresh_token_subject@,
                    *jwt_config,
                    now,
                ),
            Err(e) => e@ == ErrorView::Internal && exists|now: int|
                now >= 0 && issued_pair(
                    input.access_token_subject@,
                    input.refresh_token_subject@,
                    *jwt_config,
                    now,
                ) is None,
        },
{
    let now = clock::now();
    encode_tokens_at(input, jwt_config, now)
}

/// Issues a pair of tokens at `now`: the access token first, under the
/// access secret and lifetime, then the refresh token under its own.
/// `Internal` where either cannot be issued.
pub fn encode_tokens_at(input: EncodeTokens, jwt_config: &Jwt, now: i64) -> (r: Result<
    EncodeTokensOutput,
    Error,
>)
    ensures
        match r {
            Ok(pair) => is_issued_pair(
                pair,
                input.access_token_subject@,
                input.refresh_token_subject@,
                *jwt_config,
                now as int,
            ),
            Err(e) => e@ == ErrorView::Internal && issued_pair(
                input.access_token_subject@,
                input.refresh_token_subject@,
                *jwt_config,
                now as int,
            ) is None,
        },
{
    let access_token = match JwtAccessToken::encode_at(
        input.access_token_subject,
        jwt_config.access_token_duration,
        jwt_config.access_token_secret.clone(),
        now,
    ) {
        Ok(token) => token,
        Err(e) => {
            return Err(e);
        },
    };
    let refresh_token = match JwtRefreshToken::encode_at(
        input.refresh_token_subject,
        jwt_config.refresh_token_duration,
        jwt_config.refresh_token_secret.clone(),
        now,
    ) {
        Ok(token) => token,
        Err(e) => {
            return Err(e);
        },
    };
    Ok(EncodeTokensOutput { access_token, refresh_token })
}

/// Issues pairs of tokens under the settings it was made with.
#[derive(Debug)]
pub struct EncodeTokensService {
    pub jwt_config: Jwt,
}

impl Service<EncodeTokens> for EncodeTokensService {
    /// Issues a pair of tokens now.
    fn execute(&self, input: EncodeTokens) -> (r: Result<EncodeTokensOutput, Error>)
        ensures
            match r {
                Ok(pair) => exists|now: int|
                    is_issued_pair(
                        pair,
                        input.access_token_subject@,
                        input.refresh_token_subject@,
                        self.jwt_config,
                        now,
                    ),
                Err(e) => e@ == ErrorView::Internal,
            },
    {
        encode_tokens(input, &self.jwt_config)
    }
}

/// Asks for the claims of an access token.
#[derive(Debug)]
pub struct DecodeAccessToken {
    pub raw_jwt: RawJwtAccessToken,
}

impl ServiceArgs for DecodeAccessToken {
    type Output = Result<JwtAccessToken, Error>;
}

/// Checks an access token now, under the access secret: see
/// [`decode_access_token_at`].
pub fn decode_access_token(input: DecodeAccessToken, jwt_config: &Jwt) -> (r: Result<
    JwtAccessToken,
    Error,
>)
    ensures
        match r {
            Ok(token) => token.raw@ == input.raw_jwt@ && exists|now: int|
                now >= 0 && decoded(input.raw_jwt@, jwt_config.access_token_secret@, now) == Some(
                    token.claims@,
                ),
            Err(e) => e@ == ErrorView::Internal && exists|now: int|
                now >= 0 && decoded(input.raw_jwt@, jwt_config.access_token_secret@, now)
                    is None,
        },
{
    JwtAccessToken::decode(input.raw_jwt, jwt_config.access_token_secret.clone())
}

/// Checks an access token at `now`, under the access secret.
pub fn decode_access_token_at(input: DecodeAccessToken, jwt_config: &Jwt, now: i64) -> (r: Result<
    JwtAccessToken,
    Error,
>)
    ensures
        match r {
            Ok(token) => token.raw@ == input.raw_jwt@ && decoded(
                input.raw_jwt@,
                jwt_config.access_token_secret@,
                now as int,
            ) == Some(token.claims@),
            Err(e) => e@ == ErrorView::Internal && decoded(
                input.raw_jwt@,
                jwt_config.access_token_secret@,
                now as int,
            ) is None,
        },
{
    JwtAccessToken::decode_at(input.raw_jwt, jwt_config.access_token_secret.clone(), now)
}

/// Checks access tokens under the settings it was made with.
#[derive(Debug)]
pub struct DecodeAccessTokenService {
    pub jwt_config: Jwt,
}

impl Service<DecodeAccessToken> for DecodeAccessTokenService {
    /// Checks an access token now.
    fn execute(&self, input: DecodeAccessToken) -> (r: Result<JwtAccessToken, Error>)
        ensures
            match r {
                Ok(token) => token.raw@ == input.raw_jwt@ && exists|now: int|
                    decoded(input.raw_jwt@, self.jwt_config.access_token_secret@, now) == Some(
                        token.claims@,
                    ),
                Err(e) => e@ == ErrorView::Internal,
            },
    {
        decode_access_token(input, &self.jwt_config)
    }
}

/// Asks for the claims of a refresh token.
#[derive(Debug)]
pub struct DecodeRefreshToken {
    pub raw_jwt: RawJwtRefreshToken,
}

impl ServiceArgs for DecodeRefreshToken {
    type Output = Result<JwtRefreshToken, Error>;
}

/// What checking a refresh token at `now` answers, given whether it is
/// revoked: a revoked token is refused as no longer valid, whatever it
/// holds; any other token stands for its claims, or is refused with
/// `Internal`.
pub open spec fn refresh_token_check(
    revoked: bool,
    token: Seq<char>,
    secret: Seq<char>,
    now: int,
) -> Result<(Seq<char>, int), ErrorView> {
    if revoked {
        Err(resolved(AppError::RefreshTokenIsNoLongerValid))
    } else {
        match decoded(token, secret, now) {
            Some(claims) => Ok(claims),
            None => Err(ErrorView::Internal),
        }
    }
}

/// Checks a refresh token at `now`, given what the revocation store
/// answered for it. A failure of the store is handed on; a revoked token is
/// refused; any other token is checked under the secret.
pub fn decode_refresh_token_with(
    raw_jwt: RawJwtRefreshToken,
    is_blacklisted: Result<bool, Error>,
    secret: String,
    now: i64,
) -> (r: Result<JwtRefreshToken, Error>)
    ensures
        match is_blacklisted {
            Err(failure) => r matches Err(e) && e == failure,
            Ok(revoked) => match (r, refresh_token_check(revoked, raw_jwt@, secret@, now as int)) {
                (Ok(token), Ok(claims)) => token.raw@ == raw_jwt@ && token.claims@ == claims,
                (Err(e), Err(expected)) => e@ == expected,
                _ => false,
            },
        },
{
    match is_blacklisted {
        Err(failure) => Err(failure),
        Ok(true) => Err(Error::from(AppError::RefreshTokenIsNoLongerValid)),
        Ok(false) => JwtRefreshToken::decode_at(raw_jwt, secret, now),
    }
}

/// What checking a refresh token at `now` comes to: the store is asked, at
/// `now`, whether it holds the token as revoked. Its failure is the answer;
/// a token that it holds is refused as no longer valid; any other token is
/// checked under the refresh secret: see [`refresh_token_check`].
pub open spec fn decode_refresh_outcome<S: JwtStore>(
    r: Result<JwtRefreshToken, Error>,
    store: &S,
    raw_jwt: RawJwtRefreshToken,
    jwt_config: Jwt,
    now: i64,
) -> bool {
    exists|presented: RawJwtRefreshToken, answer: Result<bool, Error>|
        #![trigger revocation_gave(store, presented, now, answer)]
        presented@ == raw_jwt@ && revocation_gave(store, presented, now, answer) && match answer {
            Err(failure) => r matches Err(e) && e == failure,
            Ok(found) => may_answer(S::reclaims(), store.revoked(), raw_jwt@, now as int, found)
                && match (
                r,
                refresh_token_check(found, raw_jwt@, jwt_config.refresh_token_secret@, now as int),
            ) {
                (Ok(token), Ok(claims)) => token.raw@ == raw_jwt@ && token.claims@ == claims,
                (Err(e), Err(expected)) => e@ == expected,
                _ => false,
            },
        }
}

/// Checks a refresh token now: see [`decode_refresh_token_at`], for the
/// moment that the clock gives.
pub fn decode_refresh_token<S: JwtStore>(
    input: DecodeRefreshToken,
    jwt_config: &Jwt,
    jwt_store: &S,
) -> (r: Result<JwtRefreshToken, Error>)
    ensures
        exists|now: i64|
            #![trigger decode_refresh_outcome::<S>(r, jwt_store, input.raw_jwt, *jwt_config, now)]
            now >= 0 && decode_refresh_outcome::<S>(r, jwt_store, input.raw_jwt, *jwt_config, now),
        !S::reclaims() && jwt_store.revoked().contains_key(input.raw_jwt@) ==> r is Err,
        S::infallible() && !S::reclaims() && jwt_store.revoked().contains_key(input.raw_jwt@) ==> (
        r matches Err(e) && e@ == resolved(AppError::RefreshTokenIsNoLongerValid)),
        r matches Ok(token) ==> token.raw@ == input.raw_jwt@ && exists|now: int|
            decoded(input.raw_jwt@, jwt_config.refresh_token_secret@, now) == Some(token.claims@),
{
    let now = clock::now();
    decode_refresh_token_at(input, jwt_config, jwt_store, now)
}

/// Checks a refresh token at `now`: asks the store whether it holds the
/// token as revoked, then checks it under the refresh secret: see
/// [`decode_refresh_outcome`]. A token that every store has to hold at `now`
/// is refused in any case.
pub fn decode_refresh_token_at<S: JwtStore>(
    input: DecodeRefreshToken,
    jwt_config: &Jwt,
    jwt_store: &S,
    now: i64,
) -> (r: Result<JwtRefreshToken, Error>)
    ensures
        decode_refresh_outcome::<S>(r, jwt_store, input.raw_jwt, *jwt_config, now),
        still_revoked(S::reclaims(), jwt_store.revoked(), input.raw_jwt@, now as int) ==> r is Err,
        S::infallible() && still_revoked(
            S::reclaims(),
            jwt_store.revoked(),
            input.raw_jwt@,
            now as int,
        ) ==> (r matches Err(e) && e@ == resolved(AppError::RefreshTokenIsNoLongerValid)),
        r matches Ok(token) ==> token.raw@ == input.raw_jwt@ && refresh_token_check(
            false,
            input.raw_jwt@,
            jwt_config.refresh_token_secret@,
            now as int,
        ) == Ok::<(Seq<char>, int), ErrorView>(token.claims@),
        S::infallible() && !S::reclaims() ==> match (
            r,
            refresh_token_check(
                jwt_store.revoked().contains_key(input.raw_jwt@),
                input.raw_jwt@,
                jwt_config.refresh_token_secret@,
                now as int,
            ),
        ) {
            (Ok(token), Ok(claims)) => token.claims@ == claims,
            (Err(e), Err(expected)) => e@ == expected,
            _ => false,
        },
{
    let presented = input.raw_jwt.clone();
    let ghost shown = presented;
    let is_blacklisted = jwt_store.is_blacklisted(presented, now);
    assert(revocation_gave(jwt_store, shown, now, is_blacklisted));
    decode_refresh_token_with(
        input.raw_jwt,
        is_blacklisted,
        jwt_config.refresh_token_secret.clone(),
        now,
    )
}

/// Asks for a refresh token to be revoked.
#[derive(Debug)]
pub struct BlacklistRefreshToken {
    pub refresh_token: JwtRefreshToken,
}

impl ServiceArgs for BlacklistRefreshToken {
    type Output = Result<(), Error>;
}

/// Revokes a refresh token: from now on the store holds it, until its own
/// expiry. The answer is the store's own; where the store fails, the token
/// is either held or not.
pub fn blacklist_refresh_token<S: JwtStore>(input: BlacklistRefreshToken, jwt_store: &mut S) -> (r:
    Result<(), Error>)
    ensures
        old(jwt_store).blacklist_gave(&input.refresh_token, final(jwt_store), r),
        S::infallible() ==> r is Ok,
        r is Ok ==> final(jwt_store).revoked() == old(jwt_store).revoked().insert(
            input.refresh_token.raw@,
            input.refresh_token.claims.exp as int,
        ),
        r is Err ==> final(jwt_store).revoked() == old(jwt_store).revoked() || final(jwt_store).revoked() == old(jwt_store).revoked().insert(
            input.refresh_token.raw@,
            input.refresh_token.claims.exp as int,
        ),
{
    jwt_store.blacklist_token(input.refresh_token)
}

/// Asks for a new pair of tokens in exchange for a refresh token.
#[derive(Debug)]
pub struct RefreshTokens {
    pub refresh_token: JwtRefreshToken,
}

/// The new pair of tokens.
#[derive(Debug)]
pub struct RefreshTokensOutput {
    pub access_token: JwtAccessToken,
    pub refresh_token: JwtRefreshToken,
}

impl FromSpecImpl<EncodeTokensOutput> for RefreshTokensOutput {
    open spec fn obeys_from_spec() -> bool {
        true
    }

    open spec fn from_spec(value: EncodeTokensOutput) -> RefreshTokensOutput {
        RefreshTokensOutput { access_token: value.access_token, refresh_token: value.refresh_token }
    }
}

impl From<EncodeTokensOutput> for RefreshTokensOutput {
    fn from(value: EncodeTokensOutput) -> (r: RefreshTokensOutput) {
        RefreshTokensOutput { access_token: value.access_token, refresh_token: value.refresh_token }
    }
}

impl ServiceArgs for RefreshTokens {
    type Output = Result<RefreshTokensOutput, Error>;
}

/// What trading a refresh token for a new pair at `now` comes to. The store
/// is asked to revoke the token; its failure is the answer, and nothing is
/// issued. Then a pair is issued for the token's subject: the answer is the
/// pair, or `Internal` where none can be issued at `now`; the old token is
/// revoked in both cases.
pub open spec fn refresh_outcome<S: JwtStore>(
    r: Result<RefreshTokensOutput, Error>,
    store: &S,
    after: &S,
    refresh_token: JwtRefreshToken,
    jwt_config: Jwt,
    now: int,
) -> bool {
    let token = refresh_token.raw@;
    let expiry = refresh_token.claims.exp as int;
    let subject = refresh_token.claims.sub@;
    ||| r matches Err(e) && revocation_answered(store, token, expiry, after, Err(e)) && (
    after.revoked() == store.revoked() || after.revoked() == store.revoked().insert(
        token,
        expiry,
    ))
    ||| revocation_answered(store, token, expiry, after, Ok(())) && after.revoked()
        == store.revoked().insert(token, expiry) && match r {
        Ok(pair) => is_issued_pair(
            EncodeTokensOutput {
                access_token: pair.access_token,
                refresh_token: pair.refresh_token,
            },
            subject,
            subject,
            jwt_config,
            now,
        ),
        Err(e) => e@ == ErrorView::Internal && issued_pair(subject, subject, jwt_config, now)
            is None,
    }
}

/// Trades a refresh token for a new pair now: see [`refresh_tokens_at`]. A
/// store that answers every call holds the old token as revoked afterwards,
/// whether a pair was issued or not; the only failure left is `Internal`,
/// where no pair can be issued at the moment of the call.
pub fn refresh_tokens<S: JwtStore>(input: RefreshTokens, jwt_config: &Jwt, jwt_store: &mut S) -> (r:
    Result<RefreshTokensOutput, Error>)
    ensures
        exists|now: int|
            #![trigger refresh_outcome::<S>(r, old(jwt_store), final(jwt_store), input.refresh_token, *jwt_config, now)]
            now >= 0 && refresh_outcome::<S>(
                r,
                old(jwt_store),
                final(jwt_store),
                input.refresh_token,
                *jwt_config,
                now,
            ),
        r is Ok ==> final(jwt_store).revoked() == old(jwt_store).revoked().insert(
            input.refresh_token.raw@,
            input.refresh_token.claims.exp as int,
        ),
        r matches Ok(pair) ==> exists|now: int|
            is_issued_pair(
                EncodeTokensOutput {
                    access_token: pair.access_token,
                    refresh_token: pair.refresh_token,
                },
                input.refresh_token.claims.sub@,
                input.refresh_token.claims.sub@,
                *jwt_config,
                now,
            ),
        r is Err ==> final(jwt_store).revoked() == old(jwt_store).revoked() || final(jwt_store).revoked() == old(jwt_store).revoked().insert(
            input.refresh_token.raw@,
            input.refresh_token.claims.exp as int,
        ),
        S::infallible() ==> final(jwt_store).revoked() == old(jwt_store).revoked().insert(
            input.refresh_token.raw@,
            input.refresh_token.claims.exp as int,
        ),
        S::infallible() ==> (r matches Err(e) ==> e@ == ErrorView::Internal && exists|now: int|
            issued_pair(
                input.refresh_token.claims.sub@,
                input.refresh_token.claims.sub@,
                *jwt_config,
                now,
            ) is None),
{
    let now = clock::now();
    refresh_tokens_at(input, jwt_config, jwt_store, now)
}

/// Trades a refresh token for a new pair at `now`. The old token is revoked
/// first; only then is a pair issued for its subject. So whoever holds a
/// new pair, the old token is revoked. Where the store fails nothing is
/// issued; where issuing fails the old token is revoked all the same.
pub fn refresh_tokens_at<S: JwtStore>(
    input: RefreshTokens,
    jwt_config: &Jwt,
    jwt_store: &mut S,
    now: i64,
) -> (r: Result<RefreshTokensOutput, Error>)
    ensures
        refresh_outcome::<S>(
            r,
            old(jwt_store),
            final(jwt_store),
            input.refresh_token,
            *jwt_config,
            now as int,
        ),
        r is Ok ==> final(jwt_store).revoked() == old(jwt_store).revoked().insert(
            input.refresh_token.raw@,
            input.refresh_token.claims.exp as int,
        ),
        r matches Ok(pair) ==> is_issued_pair(
            EncodeTokensOutput { access_token: pair.access_token, refresh_token: pair.refresh_token },
            input.refresh_token.claims.sub@,
            input.refresh_token.claims.sub@,
            *jwt_config,
            now as int,
        ),
        r is Err ==> final(jwt_store).revoked() == old(jwt_store).revoked() || final(jwt_store).revoked() == old(jwt_store).revoked().insert(
            input.refresh_token.raw@,
            input.refresh_token.claims.exp as int,
        ),
        S::infallible() ==> final(jwt_store).revoked() == old(jwt_store).revoked().insert(
            input.refresh_token.raw@,
            input.refresh_token.claims.exp as int,
        ) && (r is Ok <==> issued_pair(
            input.refresh_token.claims.sub@,
            input.refresh_token.claims.sub@,
            *jwt_config,
            now as int,
        ) is Some) && (r matches Err(e) ==> e@ == ErrorView::Internal),
{
    let revoked = jwt_store.blacklist_token(input.refresh_token.clone());
    assert(revocation_answered(
        &*old(jwt_store),
        input.refresh_token.raw@,
        input.refresh_token.claims.exp as int,
        &*jwt_store,
        revoked,
    ));
    match revoked {
        Ok(done) => {
            assert(revoked == Ok::<(), Error>(()));
        },
        Err(e) => {
            return Err(e);
        },
    }
    let username = input.refresh_token.claims.sub.into_inner();
    let encode_tokens_input = EncodeTokens {
        access_token_subject: AccessTokenSubject(username.clone()),
        refresh_token_subject: RefreshTokenSubject(username),
    };
    match encode_tokens_at(encode_tokens_input, jwt_config, now) {
        Ok(pair) => Ok(RefreshTokensOutput::from(pair)),
        Err(e) => Err(e),
    }
}

/// Once a refresh token has been traded in, or revoked in any other way, it
/// is held as revoked, and checking it is refused as no longer valid:
/// whatever it holds, at whatever time.
pub proof fn lemma_revoked_token_is_refused(
    revoked_before: Map<Seq<char>, int>,
    token: Seq<char>,
    expiry: int,
    secret: Seq<char>,
    now: int,
)
    ensures
        revoked_before.insert(token, expiry).contains_key(token),
        refresh_token_check(
            revoked_before.insert(token, expiry).contains_key(token),
            token,
            secret,
            now,
        ) == Err::<(Seq<char>, int), ErrorView>(resolved(AppError::RefreshTokenIsNoLongerValid)),
{
}

} // verus!
