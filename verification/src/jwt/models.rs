//! Access and refresh tokens: a subject and an expiry, signed with a secret
//! of the token's class.

use vstd::prelude::*;

use crate::clock;
use crate::clock::{shifted_timestamp, Duration};
use crate::error::{Error, ErrorView};
use crate::users::values::{checked_username, Username};

verus! {

/// The token that `jsonwebtoken::encode` makes of a subject and an expiry
/// under a secret, with HMAC-SHA-512; `None` where it makes none.
pub uninterp spec fn signed_token(subject: Seq<char>, expiry: int, secret: Seq<char>) -> Option<
    Seq<char>,
>;

/// The subject and the expiry that `jsonwebtoken::decode` reads from a token
/// whose HMAC-SHA-512 signature it accepts under a secret, each as far as
/// the payload holds it in the expected form; `None` where the token is
/// refused.
pub uninterp spec fn verified_payload(token: Seq<char>, secret: Seq<char>) -> Option<
    (Option<Seq<char>>, Option<int>),
>;

/// What `jsonwebtoken::decode` reads, under the same secret, from a token
/// that `jsonwebtoken::encode` made of a subject and an expiry: the two
/// claims as they went in. An expiry below zero is no timestamp to
/// `decode`, which then misses the claim and refuses the token.
pub open spec fn payload_of_signed(subject: Seq<char>, expiry: int) -> Option<
    (Option<Seq<char>>, Option<int>),
> {
    if expiry >= 0 {
        Some((Some(subject), Some(expiry)))
    } else {
        None
    }
}

/// Signs the claims `sub` and `exp` with `jsonwebtoken::encode`, under the
/// header of HMAC-SHA-512 and the secret's bytes; a failure comes back as
/// `None`. The outcome depends on the three arguments alone. The token that
/// comes back is one that `jsonwebtoken::decode` accepts under the same
/// secret and reads the same two claims from, unless the expiry is below
/// zero: then `decode` finds no `exp` that it can read and refuses.
#[verifier::external_body]
fn sign_hs512(subject: &str, expiry: i64, secret: &str) -> (r: Option<String>)
    ensures
        match r {
            Some(token) => signed_token(subject@, expiry as int, secret@) == Some(token@),
            None => signed_token(subject@, expiry as int, secret@) is None,
        },
        r matches Some(token) ==> verified_payload(token@, secret@) == payload_of_signed(
            subject@,
            expiry as int,
        ),
{
    let mut claims = serde_json::Map::new();
    claims.insert(String::from("sub"), serde_json::Value::from(subject));
    claims.insert(String::from("exp"), serde_json::Value::from(expiry));
    let header = jsonwebtoken::Header::new(jsonwebtoken::Algorithm::HS512);
    let key = jsonwebtoken::EncodingKey::from_secret(secret.as_bytes());
    jsonwebtoken::encode(&header, &claims, &key).ok()
}

/// Checks a token with `jsonwebtoken::decode` under HMAC-SHA-512 and the
/// secret's bytes, with the comparison of the expiry against the clock
/// switched off, and hands out the claims `sub`, where it is a text, and
/// `exp`, where it is a 64-bit integer; a refusal comes back as `None`. The
/// outcome depends on the two arguments alone.
#[verifier::external_body]
fn verify_hs512(token: &str, secret: &str) -> (r: Option<(Option<String>, Option<i64>)>)
    ensures
        match r {
            Some(payload) => verified_payload(token@, secret@) == Some(
                (
                    match payload.0 {
                        Some(subject) => Some(subject@),
                        None => None,
                    },
                    match payload.1 {
                        Some(expiry) => Some(expiry as int),
                        None => None,
                    },
                ),
            ),
            None => verified_payload(token@, secret@) is None,
        },
{
    let mut validation = jsonwebtoken::Validation::new(jsonwebtoken::Algorithm::HS512);
    validation.validate_exp = false;
    let key = jsonwebtoken::DecodingKey::from_secret(secret.as_bytes());
    let data = jsonwebtoken::decode::<serde_json::Value>(token, &key, &validation).ok()?;
    let subject = match data.claims.get("sub") {
        Some(serde_json::Value::String(text)) => Some(text.clone()),
        _ => None,
    };
    let expiry = match data.claims.get("exp") {
        Some(number) => number.as_i64(),
        None => None,
    };
    Some((subject, expiry))
}

/// The token and the expiry that issuing at `now` gives: the expiry is
/// `seconds` after `now`, and the token carries the subject and that expiry
/// under the secret. `None` where the expiry is out of the range of
/// timestamps, or no token can be made.
pub open spec fn issued(subject: Seq<char>, seconds: int, secret: Seq<char>, now: int) -> Option<
    (Seq<char>, int),
> {
    match shifted_timestamp(now, seconds) {
        Some(expiry) => match signed_token(subject, expiry, secret) {
            Some(token) => Some((token, expiry)),
            None => None,
        },
        None => None,
    }
}

/// The claims that a payload stands for at `now`: both claims are there,
/// the subject is a username, and the expiry is not in the past.
pub open spec fn accepted_claims(
    payload: Option<(Option<Seq<char>>, Option<int>)>,
    now: int,
) -> Option<(Seq<char>, int)> {
    match payload {
        Some((Some(subject), Some(expiry))) => if checked_username(subject) is Ok && expiry
            >= now {
            Some((subject, expiry))
        } else {
            None
        },
        _ => None,
    }
}

/// The claims that a token stands for at `now` under a secret.
pub open spec fn decoded(token: Seq<char>, secret: Seq<char>, now: int) -> Option<
    (Seq<char>, int),
> {
    accepted_claims(verified_payload(token, secret), now)
}

/// The token stands for the claims at every moment up to their expiry, and
/// for none after it; with an expiry below zero it stands for none at all.
pub open spec fn reads_back(token: Seq<char>, secret: Seq<char>, claims: (Seq<char>, int)) -> bool {
    forall|at: int|
        #[trigger] decoded(token, secret, at) == (if 0 <= claims.1 && at <= claims.1 {
            Some(claims)
        } else {
            None
        })
}

/// Turns the payload of a token whose signature was accepted into claims:
/// subject and expiry must both be there, the subject must be a username,
/// and the expiry must not lie before `now`. Anything else is `Internal`.
pub fn check_claims(subject: Option<String>, expiry: Option<i64>, now: i64) -> (r: Result<
    (Username, i64),
    Error,
>)
    ensures
        match r {
            Ok(claims) => accepted_claims(
                Some(
                    (
                        match subject {
                            Some(s) => Some(s@),
                            None => None,
                        },
                        match expiry {
                            Some(e) => Some(e as int),
                            None => None,
                        },
                    ),
                ),
                now as int,
            ) == Some((claims.0@, claims.1 as int)),
            Err(e) => e@ == ErrorView::Internal && accepted_claims(
                Some(
                    (
                        match subject {
                            Some(s) => Some(s@),
                            None => None,
                        },
                        match expiry {
                            Some(e) => Some(e as int),
                            None => None,
                        },
                    ),
                ),
                now as int,
            ) is None,
        },
{
    match (subject, expiry) {
        (Some(subject), Some(expiry)) => {
            if expiry < now {
                return Err(Error::Internal);
            }
            match Username::parse(subject) {
                Ok(username) => Ok((username, expiry)),
                Err(_) => Err(Error::Internal),
            }
        },
        _ => Err(Error::Internal),
    }
}

/// Issues a token at `now`: computes the expiry and signs.
fn issue(subject: &Username, duration: Duration, secret: &str, now: i64) -> (r: Result<
    (String, i64),
    Error,
>)
    ensures
        match r {
            Ok(token) => issued(subject@, duration.seconds as int, secret@, now as int) == Some(
                (token.0@, token.1 as int),
            ),
            Err(e) => e@ == ErrorView::Internal && issued(
                subject@,
                duration.seconds as int,
                secret@,
                now as int,
            ) is None,
        },
        r matches Ok(token) ==> token.1 == now + duration.seconds && reads_back(
            token.0@,
            secret@,
            (subject@, token.1 as int),
        ),
{
    let text = subject.as_inner();
    let expiry = match clock::expiry(now, duration) {
        Some(expiry) => expiry,
        None => {
            return Err(Error::Internal);
        },
    };
    match sign_hs512(text, expiry, secret) {
        Some(token) => Ok((token, expiry)),
        None => Err(Error::Internal),
    }
}

/// Checks a token at `now`: verifies the signature and turns the payload
/// into claims.
fn check(token: &str, secret: &str, now: i64) -> (r: Result<(Username, i64), Error>)
    ensures
        match r {
            Ok(claims) => decoded(token@, secret@, now as int) == Some(
                (claims.0@, claims.1 as int),
            ),
            Err(e) => e@ == ErrorView::Internal && decoded(token@, secret@, now as int) is None,
        },
{
    match verify_hs512(token, secret) {
        Some(payload) => check_claims(payload.0, payload.1, now),
        None => Err(Error::Internal),
    }
}

/// Whom an access token speaks for.
#[derive(Debug)]
pub struct AccessTokenSubject(pub Username);

impl View for AccessTokenSubject {
    type V = Seq<char>;

    open spec fn view(&self) -> Seq<char> {
        self.0@
    }
}

impl Clone for AccessTokenSubject {
    fn clone(&self) -> (r: AccessTokenSubject)
        ensures
            r@ == self@,
    {
        AccessTokenSubject(self.0.clone())
    }
}

impl AccessTokenSubject {
    pub fn into_inner(self) -> (username: Username)
        ensures
            username == self.0,
            username@ == self@,
    {
        self.0
    }
}

/// What an access token states: its subject, and the Unix timestamp at
/// which it expires.
#[derive(Debug)]
pub struct AccessTokenClaims {
    pub sub: AccessTokenSubject,
    pub exp: i64,
}

impl View for AccessTokenClaims {
    type V = (Seq<char>, int);

    open spec fn view(&self) -> (Seq<char>, int) {
        (self.sub@, self.exp as int)
    }
}

impl Clone for AccessTokenClaims {
    fn clone(&self) -> (r: AccessTokenClaims)
        ensures
            r@ == self@,
    {
        AccessTokenClaims { sub: self.sub.clone(), exp: self.exp }
    }
}

/// An access token as it travels: signed text that only this module reads.
#[derive(Debug)]
pub struct RawJwtAccessToken(pub String);

impl View for RawJwtAccessToken {
    type V = Seq<char>;

    open spec fn view(&self) -> Seq<char> {
        self.0@
    }
}

impl Clone for RawJwtAccessToken {
    fn clone(&self) -> (r: RawJwtAccessToken)
        ensures
            r@ == self@,
    {
        RawJwtAccessToken(self.0.clone())
    }
}

/// An access token: the signed text and the claims it carries.
#[derive(Debug)]
pub struct JwtAccessToken {
    pub raw: RawJwtAccessToken,
    pub claims: AccessTokenClaims,
}

impl Clone for JwtAccessToken {
    fn clone(&self) -> (r: JwtAccessToken)
        ensures
            r.raw@ == self.raw@,
            r.claims@ == self.claims@,
    {
        JwtAccessToken { raw: self.raw.clone(), claims: self.claims.clone() }
    }
}

impl JwtAccessToken {
    /// Issues a token now: see [`JwtAccessToken::encode_at`]. The token
    /// states the subject; its expiry lies `duration` after the moment of
    /// the call, and its text is the signature of both under the secret.
    pub fn encode(subject: AccessTokenSubject, duration: Duration, signature: String) -> (r: Result<
        JwtAccessToken,
        Error,
    >)
        ensures
            match r {
                Ok(token) => token.claims.sub@ == subject@ && signed_token(
                    subject@,
                    token.claims.exp as int,
                    signature@,
                ) == Some(token.raw@) && reads_back(token.raw@, signature@, token.claims@)
                    && exists|now: int|
                    now >= 0 && shifted_timestamp(now, duration.seconds as int) == Some(
                        token.claims.exp as int,
                    ) && token.claims.exp == now + duration.seconds,
                Err(e) => e@ == ErrorView::Internal && exists|now: int|
                    now >= 0 && issued(subject@, duration.seconds as int, signature@, now)
                        is None,
            },
            r matches Ok(token) ==> (duration.seconds >= 0 ==> token.claims.exp >= 0),
    {
        let now = clock::now();
        JwtAccessToken::encode_at(subject, duration, signature, now)
    }

    /// Issues a token at `now`. Its claims are the subject and the expiry
    /// `duration` after `now`; its text is their signature under the secret,
    /// and decodes under that secret to these claims until they expire.
    /// `Internal` where that expiry is out of the range of timestamps or
    /// signing fails.
    pub fn encode_at(
        subject: AccessTokenSubject,
        duration: Duration,
        signature: String,
        now: i64,
    ) -> (r: Result<JwtAccessToken, Error>)
        ensures
            match r {
                Ok(token) => issued(subject@, duration.seconds as int, signature@, now as int)
                    == Some((token.raw@, token.claims.exp as int)) && token.claims.sub@
                    == subject@ && token.claims.exp == now + duration.seconds && reads_back(
                    token.raw@,
                    signature@,
                    token.claims@,
                ),
                Err(e) => e@ == ErrorView::Internal && issued(
                    subject@,
                    duration.seconds as int,
                    signature@,
                    now as int,
                ) is None,
            },
    {
        match issue(&subject.0, duration, signature.as_str(), now) {
            Ok(token) => Ok(
                JwtAccessToken {
                    raw: RawJwtAccessToken(token.0),
                    claims: AccessTokenClaims { sub: subject, exp: token.1 },
                },
            ),
            Err(e) => Err(e),
        }
    }

    /// Checks a token now: see [`JwtAccessToken::decode_at`].
    pub fn decode(raw_jwt: RawJwtAccessToken, signature: String) -> (r: Result<
        JwtAccessToken,
        Error,
    >)
        ensures
            match r {
                Ok(token) => token.raw@ == raw_jwt@ && exists|now: int|
                    now >= 0 && decoded(raw_jwt@, signature@, now) == Some(token.claims@),
                Err(e) => e@ == ErrorView::Internal && exists|now: int|
                    now >= 0 && decoded(raw_jwt@, signature@, now) is None,
            },
    {
        let now = clock::now();
        JwtAccessToken::decode_at(raw_jwt, signature, now)
    }

    /// Checks a token at `now` and reads its claims. `Internal` where the
    /// signature does not hold under the secret, the payload is not a
    /// subject and an expiry, or the expiry lies before `now`.
    pub fn decode_at(raw_jwt: RawJwtAccessToken, signature: String, now: i64) -> (r: Result<
        JwtAccessToken,
        Error,
    >)
        ensures
            match r {
                Ok(token) => token.raw@ == raw_jwt@ && decoded(
                    raw_jwt@,
                    signature@,
                    now as int,
                ) == Some(token.claims@),
                Err(e) => e@ == ErrorView::Internal && decoded(
                    raw_jwt@,
                    signature@,
                    now as int,
                ) is None,
            },
    {
        match check(raw_jwt.0.as_str(), signature.as_str(), now) {
            Ok(claims) => Ok(
                JwtAccessToken {
                    raw: raw_jwt,
                    claims: AccessTokenClaims { sub: AccessTokenSubject(claims.0), exp: claims.1 },
                },
            ),
            Err(e) => Err(e),
        }
    }
}

/// Whom a refresh token speaks for.
#[derive(Debug)]
pub struct RefreshTokenSubject(pub Username);

impl View for RefreshTokenSubject {
    type V = Seq<char>;

    open spec fn view(&self) -> Seq<char> {
        self.0@
    }
}

impl Clone for RefreshTokenSubject {
    fn clone(&self) -> (r: RefreshTokenSubject)
        ensures
            r@ == self@,
    {
        RefreshTokenSubject(self.0.clone())
    }
}

impl RefreshTokenSubject {
    pub fn into_inner(self) -> (username: Username)
        ensures
            username == self.0,
            username@ == self@,
    {
        self.0
    }
}

/// What a refresh token states: its subject, and the Unix timestamp at
/// which it expires.
#[derive(Debug)]
pub struct RefreshTokenClaims {
    pub sub: RefreshTokenSubject,
    pub exp: i64,
}

impl View for RefreshTokenClaims {
    type V = (Seq<char>, int);

    open spec fn view(&self) -> (Seq<char>, int) {
        (self.sub@, self.exp as int)
    }
}

impl Clone for RefreshTokenClaims {
    fn clone(&self) -> (r: RefreshTokenClaims)
        ensures
            r@ == self@,
    {
        RefreshTokenClaims { sub: self.sub.clone(), exp: self.exp }
    }
}

/// A refresh token as it travels: signed text that only this module reads.
#[derive(Debug)]
pub struct RawJwtRefreshToken(pub String);

impl View for RawJwtRefreshToken {
    type V = Seq<char>;

    open spec fn view(&self) -> Seq<char> {
        self.0@
    }
}

impl Clone for RawJwtRefreshToken {
    fn clone(&self) -> (r: RawJwtRefreshToken)
        ensures
            r@ == self@,
    {
        RawJwtRefreshToken(self.0.clone())
    }
}

/// A refresh token: the signed text and the claims it carries.
#[derive(Debug)]
pub struct JwtRefreshToken {
    pub raw: RawJwtRefreshToken,
    pub claims: RefreshTokenClaims,
}

impl Clone for JwtRefreshToken {
    fn clone(&self) -> (r: JwtRefreshToken)
        ensures
            r.raw@ == self.raw@,
            r.claims@ == self.claims@,
    {
        JwtRefreshToken { raw: self.raw.clone(), claims: self.claims.clone() }
    }
}

impl JwtRefreshToken {
    /// Issues a token now: see [`JwtRefreshToken::encode_at`]. The token
    /// states the subject; its expiry lies `duration` after the moment of
    /// the call, and its text is the signature of both under the secret.
    pub fn encode(subject: RefreshTokenSubject, duration: Duration, signature: String) -> (r: Result<
        JwtRefreshToken,
        Error,
    >)
        ensures
            match r {
                Ok(token) => token.claims.sub@ == subject@ && signed_token(
                    subject@,
                    token.claims.exp as int,
                    signature@,
                ) == Some(token.raw@) && reads_back(token.raw@, signature@, token.claims@)
                    && exists|now: int|
                    now >= 0 && shifted_timestamp(now, duration.seconds as int) == Some(
                        token.claims.exp as int,
                    ) && token.claims.exp == now + duration.seconds,
                Err(e) => e@ == ErrorView::Internal && exists|now: int|
                    now >= 0 && issued(subject@, duration.seconds as int, signature@, now)
                        is None,
            },
            r matches Ok(token) ==> (duration.seconds >= 0 ==> token.claims.exp >= 0),
    {
        let now = clock::now();
        JwtRefreshToken::encode_at(subject, duration, signature, now)
    }

    /// Issues a token at `now`. Its claims are the subject and the expiry
    /// `duration` after `now`; its text is their signature under the secret,
    /// and decodes under that secret to these claims until they expire.
    /// `Internal` where that expiry is out of the range of timestamps or
    /// signing fails.
    pub fn encode_at(
        subject: RefreshTokenSubject,
        duration: Duration,
        signature: String,
        now: i64,
    ) -> (r: Result<JwtRefreshToken, Error>)
        ensures
            match r {
                Ok(token) => issued(subject@, duration.seconds as int, signature@, now as int)
                    == Some((token.raw@, token.claims.exp as int)) && token.claims.sub@
                    == subject@ && token.claims.exp == now + duration.seconds && reads_back(
                    token.raw@,
                    signature@,
                    token.claims@,
                ),
                Err(e) => e@ == ErrorView::Internal && issued(
                    subject@,
                    duration.seconds as int,
                    signature@,
                    now as int,
                ) is None,
            },
    {
        match issue(&subject.0, duration, signature.as_str(), now) {
            Ok(token) => Ok(
                JwtRefreshToken {
                    raw: RawJwtRefreshToken(token.0),
                    claims: RefreshTokenClaims { sub: subject, exp: token.1 },
                },
            ),
            Err(e) => Err(e),
        }
    }

    /// Checks a token now: see [`JwtRefreshToken::decode_at`].
    pub fn decode(raw_jwt: RawJwtRefreshToken, signature: String) -> (r: Result<
        JwtRefreshToken,
        Error,
    >)
        ensures
            match r {
                Ok(token) => token.raw@ == raw_jwt@ && exists|now: int|
                    now >= 0 && decoded(raw_jwt@, signature@, now) == Some(token.claims@),
                Err(e) => e@ == ErrorView::Internal && exists|now: int|
                    now >= 0 && decoded(raw_jwt@, signature@, now) is None,
            },
    {
        let now = clock::now();
        JwtRefreshToken::decode_at(raw_jwt, signature, now)
    }

    /// Checks a token at `now` and reads its claims. `Internal` where the
    /// signature does not hold under the secret, the payload is not a
    /// subject and an expiry, or the expiry lies before `now`.
    pub fn decode_at(raw_jwt: RawJwtRefreshToken, signature: String, now: i64) -> (r: Result<
        JwtRefreshToken,
        Error,
    >)
        ensures
            match r {
                Ok(token) => token.raw@ == raw_jwt@ && decoded(
                    raw_jwt@,
                    signature@,
                    now as int,
                ) == Some(token.claims@),
                Err(e) => e@ == ErrorView::Internal && decoded(
                    raw_jwt@,
                    signature@,
                    now as int,
                ) is None,
            },
    {
        match check(raw_jwt.0.as_str(), signature.as_str(), now) {
            Ok(claims) => Ok(
                JwtRefreshToken {
                    raw: raw_jwt,
                    claims: RefreshTokenClaims { sub: RefreshTokenSubject(claims.0), exp: claims.1 },
                },
            ),
            Err(e) => Err(e),
        }
    }
}

/// A token that was issued decodes, under the secret it was signed with, to
/// the claims it was issued for: at every moment from the epoch on that is
/// not after their expiry.
pub proof fn lemma_round_trip(token: Seq<char>, secret: Seq<char>, claims: (Seq<char>, int), at: int)
    requires
        reads_back(token, secret, claims),
        0 <= claims.1,
        at <= claims.1,
    ensures
        decoded(token, secret, at) == Some(claims),
{
    assert(decoded(token, secret, at) == Some(claims));
}

/// A token that was issued at `now` for a time that had passed already, or
/// that has passed since, is refused: at every moment after its expiry, so
/// at `now` and ever after where the duration was negative.
pub proof fn lemma_issued_expired_is_refused(
    token: Seq<char>,
    secret: Seq<char>,
    subject: Seq<char>,
    now: int,
    seconds: int,
    at: int,
)
    requires
        reads_back(token, secret, (subject, now + seconds)),
        at > now + seconds,
    ensures
        decoded(token, secret, at) is None,
        seconds < 0 && at >= now ==> decoded(token, secret, at) is None,
{
    assert(decoded(token, secret, at) is None);
}

/// A payload whose expiry lies before `now` stands for no claims: a token
/// that has expired is refused, whatever else it holds.
pub proof fn lemma_expired_is_refused(subject: Option<Seq<char>>, expiry: int, now: int)
    requires
        expiry < now,
    ensures
        accepted_claims(Some((subject, Some(expiry))), now) is None,
{
}

/// A token that is accepted at some moment was accepted at every earlier
/// one, with the same claims: time only takes validity away.
pub proof fn lemma_accepted_earlier(token: Seq<char>, secret: Seq<char>, earlier: int, later: int)
    requires
        earlier <= later,
        decoded(token, secret, later) is Some,
    ensures
        decoded(token, secret, earlier) == decoded(token, secret, later),
{
}

} // verus!
