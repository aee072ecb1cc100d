use replay::clock::{expiry, now, Duration};
use replay::config::Jwt;
use replay::error::Error;
use replay::jwt::models::{
    check_claims, AccessTokenSubject, JwtAccessToken, JwtRefreshToken, RawJwtAccessToken,
    RawJwtRefreshToken, RefreshTokenSubject,
};
use replay::jwt::services::{
    blacklist_refresh_token, decode_access_token, decode_access_token_at, decode_refresh_token,
    decode_refresh_token_at, decode_refresh_token_with, encode_tokens, encode_tokens_at,
    refresh_tokens, refresh_tokens_at, BlacklistRefreshToken, DecodeAccessToken,
    DecodeRefreshToken, EncodeTokens, RefreshTokens,
};
use replay::jwt::services::{DecodeAccessTokenService, EncodeTokensService};
use replay::jwt::store::{deadline, revocation_entry, time_to_live, JwtStore, MemoryJwtStore};
use replay::service::Service;
use replay::users::values::Username;

fn name(text: &str) -> Username {
    Username::parse(String::from(text)).unwrap()
}

fn config() -> Jwt {
    Jwt {
        access_token_secret: String::from("access-secret"),
        refresh_token_secret: String::from("refresh-secret"),
        access_token_duration: Duration::seconds(3600),
        refresh_token_duration: Duration::seconds(86400),
    }
}

fn pair_for(text: &str, at: i64) -> (JwtAccessToken, JwtRefreshToken) {
    let input = EncodeTokens {
        access_token_subject: AccessTokenSubject(name(text)),
        refresh_token_subject: RefreshTokenSubject(name(text)),
    };
    let pair = encode_tokens_at(input, &config(), at).unwrap();
    (pair.access_token, pair.refresh_token)
}

fn flip_first_signature_char(token: &str) -> String {
    let dot = token.rfind('.').unwrap();
    let mut chars: Vec<char> = token.chars().collect();
    chars[dot + 1] = if chars[dot + 1] == 'A' { 'B' } else { 'A' };
    chars.into_iter().collect()
}

#[test]
fn the_clock_is_read() {
    assert!(now() > 1_600_000_000);
}

#[test]
fn expiry_is_the_sum() {
    assert_eq!(expiry(1_700_000_000, Duration::seconds(3600)), Some(1_700_003_600));
    assert_eq!(expiry(1_700_000_000, Duration::seconds(-3600)), Some(1_699_996_400));
    assert_eq!(expiry(0, Duration::seconds(0)), Some(0));
}

#[test]
fn expiry_out_of_range_is_none() {
    assert_eq!(expiry(1_700_000_000, Duration::seconds(i64::MAX)), None);
    assert_eq!(expiry(1_700_000_000, Duration::seconds(i64::MAX / 1000)), None);
    assert_eq!(expiry(i64::MAX, Duration::seconds(1)), None);
}

#[test]
fn minutes_are_sixty_seconds() {
    assert_eq!(Duration::minutes(60), Some(Duration { seconds: 3600 }));
    assert_eq!(Duration::minutes(-1), Some(Duration { seconds: -60 }));
    assert_eq!(Duration::minutes(i64::MAX), None);
    assert_eq!(Duration::minutes(i64::MIN), None);
}

#[test]
fn round_trip_access() {
    let token = JwtAccessToken::encode_at(
        AccessTokenSubject(name("alice")),
        Duration::seconds(3600),
        String::from("k1"),
        1_700_000_000,
    )
    .unwrap();
    assert_eq!(token.claims.exp, 1_700_003_600);
    assert_eq!(token.claims.sub.0.as_inner(), "alice");
    assert_ne!(token.raw.0, "alice");
    assert_eq!(token.raw.0.matches('.').count(), 2);
    let back =
        JwtAccessToken::decode_at(token.raw.clone(), String::from("k1"), 1_700_000_100).unwrap();
    assert_eq!(back.raw.0, token.raw.0);
    assert_eq!(back.claims.sub.0.as_inner(), "alice");
    assert_eq!(back.claims.exp, 1_700_003_600);
    assert_eq!(back.claims.sub.clone().into_inner().into_inner(), "alice");
}

#[test]
fn round_trip_refresh() {
    let token = JwtRefreshToken::encode_at(
        RefreshTokenSubject(name("bob")),
        Duration::seconds(86400),
        String::from("k2"),
        1_700_000_000,
    )
    .unwrap();
    assert_eq!(token.claims.exp, 1_700_086_400);
    let back =
        JwtRefreshToken::decode_at(token.raw.clone(), String::from("k2"), 1_700_086_400).unwrap();
    assert_eq!(back.claims.sub.0.as_inner(), "bob");
    assert_eq!(back.claims.exp, 1_700_086_400);
    assert_eq!(back.claims.sub.clone().into_inner().into_inner(), "bob");
}

#[test]
fn round_trip_now() {
    let before = now();
    let token = JwtAccessToken::encode(
        AccessTokenSubject(name("carol")),
        Duration::seconds(600),
        String::from("k"),
    )
    .unwrap();
    let after = now();
    assert!(before + 600 <= token.claims.exp && token.claims.exp <= after + 600);
    let back = JwtAccessToken::decode(token.raw.clone(), String::from("k")).unwrap();
    assert_eq!(back.claims.sub.0.as_inner(), "carol");
    assert_eq!(back.claims.exp, token.claims.exp);
    let refresh = JwtRefreshToken::encode(
        RefreshTokenSubject(name("carol")),
        Duration::seconds(600),
        String::from("k"),
    )
    .unwrap();
    let back = JwtRefreshToken::decode(refresh.raw.clone(), String::from("k")).unwrap();
    assert_eq!(back.claims.sub.0.as_inner(), "carol");
}

#[test]
fn signing_is_a_function_of_its_inputs() {
    let a = JwtAccessToken::encode_at(
        AccessTokenSubject(name("alice")),
        Duration::seconds(60),
        String::from("k"),
        1_700_000_000,
    )
    .unwrap();
    let b = JwtAccessToken::encode_at(
        AccessTokenSubject(name("alice")),
        Duration::seconds(60),
        String::from("k"),
        1_700_000_000,
    )
    .unwrap();
    let c = JwtAccessToken::encode_at(
        AccessTokenSubject(name("alice")),
        Duration::seconds(61),
        String::from("k"),
        1_700_000_000,
    )
    .unwrap();
    assert_eq!(a.raw.0, b.raw.0);
    assert_ne!(a.raw.0, c.raw.0);
}

#[test]
fn another_key_is_refused() {
    let token = JwtAccessToken::encode_at(
        AccessTokenSubject(name("alice")),
        Duration::seconds(3600),
        String::from("k1"),
        1_700_000_000,
    )
    .unwrap();
    let r = JwtAccessToken::decode_at(token.raw, String::from("k2"), 1_700_000_000);
    assert!(matches!(r, Err(Error::Internal)));
}

#[test]
fn a_flipped_signature_is_refused() {
    let token = JwtRefreshToken::encode_at(
        RefreshTokenSubject(name("alice")),
        Duration::seconds(3600),
        String::from("k1"),
        1_700_000_000,
    )
    .unwrap();
    let tampered = RawJwtRefreshToken(flip_first_signature_char(&token.raw.0));
    assert_ne!(tampered.0, token.raw.0);
    let r = JwtRefreshToken::decode_at(tampered, String::from("k1"), 1_700_000_000);
    assert!(matches!(r, Err(Error::Internal)));
}

#[test]
fn garbage_is_refused() {
    let r = JwtAccessToken::decode_at(
        RawJwtAccessToken(String::from("a.jwt.token")),
        String::from("k1"),
        0,
    );
    assert!(matches!(r, Err(Error::Internal)));
    let r = JwtAccessToken::decode(RawJwtAccessToken(String::new()), String::from("k1"));
    assert!(matches!(r, Err(Error::Internal)));
}

#[test]
fn an_expired_token_is_refused() {
    let token = JwtAccessToken::encode_at(
        AccessTokenSubject(name("alice")),
        Duration::seconds(60),
        String::from("k1"),
        1_700_000_000,
    )
    .unwrap();
    assert!(JwtAccessToken::decode_at(token.raw.clone(), String::from("k1"), 1_700_000_060).is_ok());
    let r = JwtAccessToken::decode_at(token.raw.clone(), String::from("k1"), 1_700_000_061);
    assert!(matches!(r, Err(Error::Internal)));
}

#[test]
fn a_negative_duration_gives_an_expired_token() {
    let token = JwtRefreshToken::encode(
        RefreshTokenSubject(name("alice")),
        Duration::seconds(-5),
        String::from("k1"),
    )
    .unwrap();
    let r = JwtRefreshToken::decode(token.raw, String::from("k1"));
    assert!(matches!(r, Err(Error::Internal)));
    let token = JwtAccessToken::encode(
        AccessTokenSubject(name("alice")),
        Duration::seconds(-3600),
        String::from("k1"),
    )
    .unwrap();
    let r = JwtAccessToken::decode(token.raw, String::from("k1"));
    assert!(matches!(r, Err(Error::Internal)));
}

#[test]
fn a_duration_out_of_range_is_internal() {
    let r = JwtAccessToken::encode(
        AccessTokenSubject(name("alice")),
        Duration::seconds(i64::MAX),
        String::from("k1"),
    );
    assert!(matches!(r, Err(Error::Internal)));
    let r = JwtRefreshToken::encode_at(
        RefreshTokenSubject(name("alice")),
        Duration::seconds(i64::MAX / 1000),
        String::from("k1"),
        1_700_000_000,
    );
    assert!(matches!(r, Err(Error::Internal)));
}

#[test]
fn claims_are_checked() {
    let ok = check_claims(Some(String::from("alice")), Some(100), 100).unwrap();
    assert_eq!(ok.0.as_inner(), "alice");
    assert_eq!(ok.1, 100);
    assert!(matches!(check_claims(Some(String::from("alice")), Some(99), 100), Err(Error::Internal)));
    assert!(matches!(check_claims(None, Some(100), 100), Err(Error::Internal)));
    assert!(matches!(check_claims(Some(String::from("alice")), None, 100), Err(Error::Internal)));
    assert!(matches!(check_claims(Some(String::new()), Some(100), 100), Err(Error::Internal)));
    assert!(matches!(check_claims(Some("a".repeat(31)), Some(100), 100), Err(Error::Internal)));
}

#[test]
fn the_two_classes_have_their_own_secrets() {
    let (access, refresh) = pair_for("alice", 1_700_000_000);
    assert_eq!(access.claims.exp, 1_700_003_600);
    assert_eq!(refresh.claims.exp, 1_700_086_400);
    let config = config();
    let ok = decode_access_token_at(
        DecodeAccessToken { raw_jwt: access.raw.clone() },
        &config,
        1_700_000_000,
    )
    .unwrap();
    assert_eq!(ok.claims.sub.0.as_inner(), "alice");
    // a refresh token is no access token
    let r = decode_access_token_at(
        DecodeAccessToken { raw_jwt: RawJwtAccessToken(refresh.raw.0.clone()) },
        &config,
        1_700_000_000,
    );
    assert!(matches!(r, Err(Error::Internal)));
    // and the other way round
    let store = MemoryJwtStore::new();
    let r = decode_refresh_token_at(
        DecodeRefreshToken { raw_jwt: RawJwtRefreshToken(access.raw.0.clone()) },
        &config,
        &store,
        1_700_000_000,
    );
    assert!(matches!(r, Err(Error::Internal)));
}

#[test]
fn tokens_issued_now_decode_now() {
    let input = EncodeTokens {
        access_token_subject: AccessTokenSubject(name("dave")),
        refresh_token_subject: RefreshTokenSubject(name("dave")),
    };
    let config = config();
    let pair = encode_tokens(input, &config).unwrap();
    let access =
        decode_access_token(DecodeAccessToken { raw_jwt: pair.access_token.raw.clone() }, &config)
            .unwrap();
    assert_eq!(access.claims.sub.0.as_inner(), "dave");
    let store = MemoryJwtStore::new();
    let refresh = decode_refresh_token(
        DecodeRefreshToken { raw_jwt: pair.refresh_token.raw.clone() },
        &config,
        &store,
    )
    .unwrap();
    assert_eq!(refresh.claims.sub.0.as_inner(), "dave");
    assert_eq!(refresh.claims.exp - access.claims.exp, 86400 - 3600);
}

#[test]
fn blacklisting_twice_is_blacklisting_once() {
    let (_, refresh) = pair_for("alice", 1_700_000_000);
    let (_, other) = pair_for("bob", 1_700_000_000);
    let mut store = MemoryJwtStore::new();
    assert_eq!(store.is_blacklisted(refresh.raw.clone(), 0).unwrap(), false);
    store.blacklist_token(refresh.clone()).unwrap();
    assert_eq!(store.is_blacklisted(refresh.raw.clone(), 0).unwrap(), true);
    store.blacklist_token(refresh.clone()).unwrap();
    assert_eq!(store.is_blacklisted(refresh.raw.clone(), 0).unwrap(), true);
    assert_eq!(store.is_blacklisted(other.raw.clone(), 0).unwrap(), false);
    store.blacklist_token(other.clone()).unwrap();
    assert_eq!(store.is_blacklisted(refresh.raw.clone(), 0).unwrap(), true);
    assert_eq!(store.is_blacklisted(other.raw.clone(), 0).unwrap(), true);
    assert_eq!(store.len(), 3);
}

#[test]
fn a_revocation_lives_as_long_as_the_token() {
    let (_, refresh) = pair_for("alice", 1_700_000_000);
    let entry = revocation_entry(refresh.clone());
    assert_eq!(entry.key, refresh.raw.0);
    assert_eq!(entry.expires_at, 1_700_086_400);
    assert_eq!(time_to_live(&entry, 1_700_000_000), 86400);
    assert_eq!(time_to_live(&entry, 1_700_086_399), 1);
    assert_eq!(time_to_live(&entry, 1_700_086_400), 0);
    assert_eq!(time_to_live(&entry, 1_800_000_000), 0);
    assert_eq!(time_to_live(&entry, -10), 1_700_086_410);
    assert_eq!(deadline(&entry), Some(1_700_086_400));
}

#[test]
fn a_token_that_expired_before_the_epoch_needs_no_revocation() {
    let token = JwtRefreshToken::encode_at(
        RefreshTokenSubject(name("alice")),
        Duration::seconds(10),
        String::from("k1"),
        -100,
    )
    .unwrap();
    let entry = revocation_entry(token);
    assert_eq!(entry.expires_at, -90);
    assert_eq!(deadline(&entry), None);
    assert_eq!(time_to_live(&entry, 0), 0);
}

#[test]
fn the_memory_store_answers_alike_at_every_moment() {
    let (_, refresh) = pair_for("alice", 1_700_000_000);
    let mut store = MemoryJwtStore::new();
    store.blacklist_token(refresh.clone()).unwrap();
    for at in [i64::MIN, 0, 1_700_086_400, 1_700_086_401, i64::MAX] {
        assert_eq!(store.is_blacklisted(refresh.raw.clone(), at).unwrap(), true);
    }
}

#[test]
fn a_blacklisted_token_is_refused_as_no_longer_valid() {
    let (_, refresh) = pair_for("alice", 1_700_000_000);
    let config = config();
    let mut store = MemoryJwtStore::new();
    let ok = decode_refresh_token_at(
        DecodeRefreshToken { raw_jwt: refresh.raw.clone() },
        &config,
        &store,
        1_700_000_000,
    );
    assert!(ok.is_ok());
    blacklist_refresh_token(BlacklistRefreshToken { refresh_token: refresh.clone() }, &mut store)
        .unwrap();
    let r = decode_refresh_token_at(
        DecodeRefreshToken { raw_jwt: refresh.raw.clone() },
        &config,
        &store,
        1_700_000_000,
    );
    assert!(matches!(r, Err(Error::InvalidArgument(ref why)) if why == "Token is no longer valid."));
}

#[test]
fn the_store_outcome_decides_first() {
    let (_, refresh) = pair_for("alice", 1_700_000_000);
    let secret = String::from("refresh-secret");
    let r = decode_refresh_token_with(
        refresh.raw.clone(),
        Err(Error::NotFound(String::from("x"))),
        secret.clone(),
        1_700_000_000,
    );
    assert!(matches!(r, Err(Error::NotFound(ref what)) if what == "x"));
    let r = decode_refresh_token_with(refresh.raw.clone(), Ok(true), secret.clone(), 1_700_000_000);
    assert!(matches!(r, Err(Error::InvalidArgument(_))));
    let r = decode_refresh_token_with(refresh.raw.clone(), Ok(false), secret.clone(), 1_700_000_000);
    assert_eq!(r.unwrap().claims.exp, 1_700_086_400);
    let r = decode_refresh_token_with(refresh.raw.clone(), Ok(false), secret, 1_800_000_000);
    assert!(matches!(r, Err(Error::Internal)));
}

#[test]
fn refreshing_revokes_the_old_token() {
    let (_, refresh) = pair_for("alice", 1_700_000_000);
    let config = config();
    let mut store = MemoryJwtStore::new();
    let fresh = refresh_tokens_at(
        RefreshTokens { refresh_token: refresh.clone() },
        &config,
        &mut store,
        1_700_000_500,
    )
    .unwrap();
    assert_eq!(fresh.access_token.claims.sub.0.as_inner(), "alice");
    assert_eq!(fresh.refresh_token.claims.sub.0.as_inner(), "alice");
    assert_eq!(fresh.access_token.claims.exp, 1_700_004_100);
    assert_eq!(fresh.refresh_token.claims.exp, 1_700_086_900);
    assert_ne!(fresh.refresh_token.raw.0, refresh.raw.0);
    assert_eq!(store.is_blacklisted(refresh.raw.clone(), 0).unwrap(), true);
    assert_eq!(store.is_blacklisted(fresh.refresh_token.raw.clone(), 0).unwrap(), false);
    let again = decode_refresh_token_at(
        DecodeRefreshToken { raw_jwt: refresh.raw.clone() },
        &config,
        &store,
        1_700_000_600,
    );
    assert!(
        matches!(again, Err(Error::InvalidArgument(ref why)) if why == "Token is no longer valid.")
    );
    let next = decode_refresh_token_at(
        DecodeRefreshToken { raw_jwt: fresh.refresh_token.raw.clone() },
        &config,
        &store,
        1_700_000_600,
    );
    assert!(next.is_ok());
}

#[test]
fn refreshing_now() {
    let config = config();
    let input = EncodeTokens {
        access_token_subject: AccessTokenSubject(name("erin")),
        refresh_token_subject: RefreshTokenSubject(name("erin")),
    };
    let pair = encode_tokens(input, &config).unwrap();
    let mut store = MemoryJwtStore::new();
    let fresh =
        refresh_tokens(RefreshTokens { refresh_token: pair.refresh_token.clone() }, &config, &mut store)
            .unwrap();
    assert_eq!(fresh.access_token.claims.sub.0.as_inner(), "erin");
    assert!(store.is_blacklisted(pair.refresh_token.raw.clone(), 0).unwrap());
}

#[test]
fn refreshing_with_lifetimes_out_of_range_still_revokes() {
    let (_, refresh) = pair_for("alice", 1_700_000_000);
    let mut config = config();
    config.access_token_duration = Duration::seconds(i64::MAX);
    let mut store = MemoryJwtStore::new();
    let r = refresh_tokens_at(
        RefreshTokens { refresh_token: refresh.clone() },
        &config,
        &mut store,
        1_700_000_500,
    );
    assert!(matches!(r, Err(Error::Internal)));
    assert!(store.is_blacklisted(refresh.raw.clone(), 0).unwrap());
}

#[test]
fn services_run_on_their_settings() {
    let issue = EncodeTokensService { jwt_config: config() };
    let check = DecodeAccessTokenService { jwt_config: config() };
    let input = EncodeTokens {
        access_token_subject: AccessTokenSubject(name("gina")),
        refresh_token_subject: RefreshTokenSubject(name("gina")),
    };
    let pair = issue.execute(input).unwrap();
    let token = check.execute(DecodeAccessToken { raw_jwt: pair.access_token.raw.clone() }).unwrap();
    assert_eq!(token.claims.sub.0.as_inner(), "gina");
    assert_eq!(token.claims.exp, pair.access_token.claims.exp);
    let wrong =
        check.execute(DecodeAccessToken { raw_jwt: RawJwtAccessToken(pair.refresh_token.raw.0) });
    assert!(matches!(wrong, Err(Error::Internal)));
}

#[test]
fn reclaiming_drops_only_what_has_run_out() {
    let (_, early) = pair_for("alice", 1_000);
    let (_, late) = pair_for("bob", 2_000);
    let mut store = MemoryJwtStore::new();
    store.blacklist_token(early.clone()).unwrap();
    store.blacklist_token(late.clone()).unwrap();
    store.blacklist_token(early.clone()).unwrap();
    assert_eq!(store.len(), 3);
    // both are alive at the expiry of the first
    store.reclaim(1_000 + 86_400);
    assert_eq!(store.len(), 3);
    assert!(store.is_blacklisted(early.raw.clone(), 0).unwrap());
    assert!(store.is_blacklisted(late.raw.clone(), 0).unwrap());
    // one second later the first has run out
    store.reclaim(1_000 + 86_401);
    assert_eq!(store.len(), 1);
    assert!(!store.is_blacklisted(early.raw.clone(), 0).unwrap());
    assert!(store.is_blacklisted(late.raw.clone(), 0).unwrap());
    store.reclaim(i64::MIN);
    assert_eq!(store.len(), 1);
    store.reclaim(i64::MAX);
    assert_eq!(store.len(), 0);
    assert!(!store.is_blacklisted(late.raw.clone(), 0).unwrap());
}

#[test]
fn an_expiry_before_the_epoch_is_never_accepted() {
    let token = JwtAccessToken::encode_at(
        AccessTokenSubject(name("alice")),
        Duration::seconds(10),
        String::from("k1"),
        -100,
    )
    .unwrap();
    assert_eq!(token.claims.exp, -90);
    let r = JwtAccessToken::decode_at(token.raw.clone(), String::from("k1"), -200);
    assert!(matches!(r, Err(Error::Internal)));
    let r = JwtAccessToken::decode_at(token.raw.clone(), String::from("k1"), -90);
    assert!(matches!(r, Err(Error::Internal)));
}

#[test]
fn a_token_reads_back_until_it_expires() {
    for (subject, now, seconds) in [("a", 0i64, 0i64), ("alice", 1_700_000_000, 3600), ("z", 5, -5)] {
        let token = JwtRefreshToken::encode_at(
            RefreshTokenSubject(name(subject)),
            Duration::seconds(seconds),
            String::from("secret"),
            now,
        )
        .unwrap();
        let expiry = now + seconds;
        assert_eq!(token.claims.exp, expiry);
        for at in [0, expiry - 1, expiry] {
            let back = JwtRefreshToken::decode_at(token.raw.clone(), String::from("secret"), at)
                .unwrap();
            assert_eq!(back.claims.sub.0.as_inner(), subject);
            assert_eq!(back.claims.exp, expiry);
        }
        for at in [expiry + 1, expiry + 1000, i64::MAX] {
            let r = JwtRefreshToken::decode_at(token.raw.clone(), String::from("secret"), at);
            assert!(matches!(r, Err(Error::Internal)));
        }
    }
}

#[test]
fn secrets_are_keys_of_the_keyed_hash() {
    // A keyed hash pads a short key with zero bytes, so two secrets that
    // differ in trailing zero bytes only are one key.
    let token = JwtAccessToken::encode_at(
        AccessTokenSubject(name("alice")),
        Duration::seconds(60),
        String::from("k"),
        1_700_000_000,
    )
    .unwrap();
    let padded = JwtAccessToken::decode_at(token.raw.clone(), String::from("k\0"), 1_700_000_000);
    assert!(padded.is_ok());
    let other = JwtAccessToken::decode_at(token.raw.clone(), String::from("l"), 1_700_000_000);
    assert!(matches!(other, Err(Error::Internal)));
}
