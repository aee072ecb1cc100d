//! Revocation: the record of refresh tokens that are no longer valid, each
//! until its own expiry.

use vstd::prelude::*;

use crate::error::Error;
use crate::jwt::models::{JwtRefreshToken, RawJwtRefreshToken};
use crate::keyed::{lemma_written_absent, lemma_written_last, lemma_written_push, written};

verus! {

/// A store of revoked refresh tokens. It is the one place that knows of
/// revocation: decoding a token never asks it.
pub trait JwtStore {
    /// The revoked tokens, each with the Unix timestamp until which the
    /// store has to remember it. A store says what it holds; of one that
    /// does not, only what the operations promise is known.
    open spec fn revoked(&self) -> Map<Seq<char>, int> {
        arbitrary()
    }

    /// Whether a store of this kind answers every call. Unless a store says
    /// so, it may fail.
    open spec fn infallible() -> bool {
        false
    }

    /// What the store, as it stood, answered when it was asked to revoke
    /// the token, and how it stands since.
    open spec fn blacklist_gave(
        &self,
        jwt_token: &JwtRefreshToken,
        after: &Self,
        answer: Result<(), Error>,
    ) -> bool {
        true
    }

    /// Records the token as revoked until its expiry. Where the store
    /// fails, the token is either recorded or not, and nothing else has
    /// changed.
    fn blacklist_token(&mut self, jwt_token: JwtRefreshToken) -> (r: Result<(), Error>)
        ensures
            old(self).blacklist_gave(&jwt_token, final(self), r),
            Self::infallible() ==> r is Ok,
            r is Ok ==> final(self).revoked() == old(self).revoked().insert(
                jwt_token.raw@,
                jwt_token.claims.exp as int,
            ),
            r is Err ==> final(self).revoked() == old(self).revoked() || final(self).revoked()
                == old(self).revoked().insert(jwt_token.raw@, jwt_token.claims.exp as int),
    ;

    /// Whether a store of this kind lets go of a revocation by itself once
    /// it has run out. Unless a store says otherwise, it may.
    open spec fn reclaims() -> bool {
        true
    }

    /// Whether the token is held as revoked at `now`. A token that is
    /// revoked until `now` or later is held. A store that lets go of
    /// revocations by itself may answer `false` for one that ran out before
    /// `now`; no other store may.
    fn is_blacklisted(&self, raw_token: RawJwtRefreshToken, now: i64) -> (r: Result<bool, Error>)
        ensures
            Self::infallible() ==> r is Ok,
            r matches Ok(found) ==> may_answer(
                Self::reclaims(),
                self.revoked(),
                raw_token@,
                now as int,
                found,
            ),
    ;
}

/// The answers that a store may give at `now` to whether a token is held as
/// revoked: `true` only for a token that is, and `false` only for one that
/// is not, or whose revocation ran out before `now` in a store that lets go
/// of such by itself.
pub open spec fn may_answer(
    reclaims: bool,
    revoked: Map<Seq<char>, int>,
    token: Seq<char>,
    now: int,
    found: bool,
) -> bool {
    if found {
        revoked.contains_key(token)
    } else {
        !revoked.contains_key(token) || (reclaims && revoked[token] < now)
    }
}

/// The token is revoked and every store has to say so at `now`: its
/// revocation has not run out, or the store never lets go.
pub open spec fn still_revoked(
    reclaims: bool,
    revoked: Map<Seq<char>, int>,
    token: Seq<char>,
    now: int,
) -> bool {
    revoked.contains_key(token) && (!reclaims || revoked[token] >= now)
}

/// The store, as it stood, answered `answer` when it was asked to revoke a
/// token of that text and expiry, and stands as `after` since.
pub open spec fn revocation_answered<S: JwtStore>(
    store: &S,
    token: Seq<char>,
    expiry: int,
    after: &S,
    answer: Result<(), Error>,
) -> bool {
    exists|revoked: JwtRefreshToken|
        revoked.raw@ == token && revoked.claims.exp == expiry && #[trigger] store.blacklist_gave(
            &revoked,
            after,
            answer,
        )
}

/// What the store answered when it was asked at `now` whether a token is
/// held as revoked.
pub open spec fn revocation_gave<S: JwtStore>(
    store: &S,
    raw_token: RawJwtRefreshToken,
    now: i64,
    answer: Result<bool, Error>,
) -> bool {
    call_ensures(S::is_blacklisted, (store, raw_token, now), answer)
}

/// The time until which a revocation is to be kept by a store that counts
/// time from the epoch: nothing for a token that had expired before the
/// epoch, which needs no revocation.
pub fn deadline(entry: &RevocationEntry) -> (at: Option<u64>)
    ensures
        match at {
            Some(seconds) => seconds == entry.expires_at,
            None => entry.expires_at < 0,
        },
{
    if entry.expires_at < 0 {
        None
    } else {
        Some(entry.expires_at as u64)
    }
}

/// One revocation: the token's text, and the Unix timestamp at which it
/// would have expired anyway.
#[derive(Debug)]
pub struct RevocationEntry {
    pub key: String,
    pub expires_at: i64,
}

/// The write that revokes a token: its text as the key, kept until the
/// token's own expiry.
pub fn revocation_entry(jwt_token: JwtRefreshToken) -> (entry: RevocationEntry)
    ensures
        entry.key@ == jwt_token.raw@,
        entry.expires_at == jwt_token.claims.exp,
{
    RevocationEntry { key: jwt_token.raw.0, expires_at: jwt_token.claims.exp }
}

/// How long a revocation made at `now` has to be kept, in seconds: the rest
/// of the token's life, and nothing for a token that has expired.
pub fn time_to_live(entry: &RevocationEntry, now: i64) -> (seconds: u64)
    ensures
        seconds == (if entry.expires_at > now {
            entry.expires_at - now
        } else {
            0
        }),
{
    if entry.expires_at > now {
        if now >= 0 {
            (entry.expires_at - now) as u64
        } else if entry.expires_at < 0 {
            (entry.expires_at - now) as u64
        } else {
            let below: u64 = (-(now + 1)) as u64 + 1;
            entry.expires_at as u64 + below
        }
    } else {
        0
    }
}

/// A store of revoked tokens that lives in memory and never fails.
pub struct MemoryJwtStore {
    entries: Vec<RevocationEntry>,
}

/// The writes that a list of entries stands for.
pub open spec fn entry_writes(entries: Seq<RevocationEntry>) -> Seq<(Seq<char>, int)> {
    Seq::new(entries.len(), |i: int| (entries[i].key@, entries[i].expires_at as int))
}

impl MemoryJwtStore {
    /// A store without revocations.
    pub fn new() -> (store: MemoryJwtStore)
        ensures
            store.revoked() == Map::<Seq<char>, int>::empty(),
            store.writes() == Seq::<(Seq<char>, int)>::empty(),
            store.recorded() == 0,
    {
        let store = MemoryJwtStore { entries: Vec::new() };
        assert(entry_writes(store.entries@) =~= Seq::empty());
        store
    }

    /// The revocations that the store holds, in the order in which they
    /// were recorded: each a token and the time until which it is revoked.
    pub closed spec fn writes(&self) -> Seq<(Seq<char>, int)> {
        entry_writes(self.entries@)
    }

    /// The revoked tokens are what the recorded revocations stand for, a
    /// later one over an earlier one of the same token.
    pub proof fn lemma_revoked_of_writes(&self)
        ensures
            self.revoked() == written(self.writes()),
            self.recorded() == self.writes().len(),
    {
    }

    /// How many revocations were recorded.
    pub fn len(&self) -> (n: usize)
        ensures
            n == self.recorded(),
    {
        self.entries.len()
    }

    /// The number of recorded revocations.
    pub closed spec fn recorded(&self) -> nat {
        self.entries@.len()
    }
}

/// The writes that are left once every revocation that had run out before
/// `now` is dropped.
pub open spec fn unexpired(writes: Seq<(Seq<char>, int)>, now: int) -> Seq<(Seq<char>, int)>
    decreases writes.len(),
{
    if writes.len() == 0 {
        Seq::empty()
    } else if writes.last().1 >= now {
        unexpired(writes.drop_last(), now).push(writes.last())
    } else {
        unexpired(writes.drop_last(), now)
    }
}

/// Dropping what has run out revokes nothing that was not revoked, and
/// leaves no more writes than there were.
pub proof fn lemma_unexpired_is_part(writes: Seq<(Seq<char>, int)>, now: int, token: Seq<char>)
    ensures
        unexpired(writes, now).len() <= writes.len(),
        written(unexpired(writes, now)).contains_key(token) ==> written(writes).contains_key(token),
    decreases writes.len(),
{
    if writes.len() > 0 {
        let front = writes.drop_last();
        lemma_unexpired_is_part(front, now, token);
        if writes.last().1 >= now {
            lemma_written_push(unexpired(front, now), writes.last().0, writes.last().1);
        }
    }
}

/// A token that is revoked until `now` or later is still revoked once what
/// has run out is dropped, and until the same time.
pub proof fn lemma_unexpired_keeps_the_living(
    writes: Seq<(Seq<char>, int)>,
    now: int,
    token: Seq<char>,
)
    requires
        written(writes).contains_key(token),
        written(writes)[token] >= now,
    ensures
        written(unexpired(writes, now)).contains_key(token),
        written(unexpired(writes, now))[token] == written(writes)[token],
    decreases writes.len(),
{
    let front = writes.drop_last();
    if writes.last().0 == token {
        lemma_written_push(unexpired(front, now), writes.last().0, writes.last().1);
    } else {
        lemma_unexpired_keeps_the_living(front, now, token);
        if writes.last().1 >= now {
            lemma_written_push(unexpired(front, now), writes.last().0, writes.last().1);
        }
    }
}

/// What dropping the revocations that had run out before `now` may do to
/// the revoked tokens: a token that is revoked until `now` or later stays
/// revoked, until the same time, and nothing becomes revoked.
pub open spec fn reclaimed(
    before: Map<Seq<char>, int>,
    after: Map<Seq<char>, int>,
    now: int,
) -> bool {
    &&& forall|token: Seq<char>| #[trigger]
        after.contains_key(token) ==> before.contains_key(token)
    &&& forall|token: Seq<char>|
        #![trigger after.contains_key(token)]
        (before.contains_key(token) && before[token] >= now) ==> (after.contains_key(token)
            && after[token] == before[token])
}

impl MemoryJwtStore {
    /// Drops every revocation that had run out before `now`: its token has
    /// expired, and is refused for that. The revocations that run until
    /// `now` or later are left, in their order.
    pub fn reclaim(&mut self, now: i64)
        ensures
            final(self).writes() == unexpired(old(self).writes(), now as int),
            final(self).revoked() == written(unexpired(old(self).writes(), now as int)),
            final(self).recorded() == unexpired(old(self).writes(), now as int).len(),
            final(self).recorded() <= old(self).recorded(),
            reclaimed(old(self).revoked(), final(self).revoked(), now as int),
    {
        let ghost writes = entry_writes(self.entries@);
        let mut kept: Vec<RevocationEntry> = Vec::new();
        let mut i: usize = 0;
        assert(writes.take(0) =~= Seq::empty());
        assert(entry_writes(kept@) =~= Seq::empty());
        while i < self.entries.len()
            invariant
                i <= self.entries.len(),
                writes == entry_writes(self.entries@),
                entry_writes(kept@) == unexpired(writes.take(i as int), now as int),
            decreases self.entries.len() - i,
        {
            let ghost so_far = entry_writes(kept@);
            proof {
                assert(writes.take(i + 1).drop_last() =~= writes.take(i as int));
                assert(writes.take(i + 1).last() == writes[i as int]);
            }
            if self.entries[i].expires_at >= now {
                kept.push(
                    RevocationEntry {
                        key: self.entries[i].key.clone(),
                        expires_at: self.entries[i].expires_at,
                    },
                );
                assert(entry_writes(kept@) =~= so_far.push(writes[i as int]));
            }
            i = i + 1;
        }
        proof {
            assert(writes.take(i as int) =~= writes);
            lemma_unexpired_is_part(writes, now as int, Seq::empty());
        }
        self.entries = kept;
        proof {
            let before = written(writes);
            let after = written(unexpired(writes, now as int));
            assert(self.revoked() == after);
            assert forall|token: Seq<char>| #[trigger]
                after.contains_key(token) implies before.contains_key(token) by {
                lemma_unexpired_is_part(writes, now as int, token);
            }
            assert forall|token: Seq<char>|
                #![trigger after.contains_key(token)]
                (before.contains_key(token) && before[token] >= now) implies (after.contains_key(
                token,
            ) && after[token] == before[token]) by {
                lemma_unexpired_keeps_the_living(writes, now as int, token);
            }
        }
    }
}

impl JwtStore for MemoryJwtStore {
    closed spec fn revoked(&self) -> Map<Seq<char>, int> {
        written(entry_writes(self.entries@))
    }

    open spec fn infallible() -> bool {
        true
    }

    open spec fn reclaims() -> bool {
        false
    }

    fn blacklist_token(&mut self, jwt_token: JwtRefreshToken) -> (r: Result<(), Error>)
        ensures
            final(self).writes() == old(self).writes().push(
                (jwt_token.raw@, jwt_token.claims.exp as int),
            ),
    {
        let ghost before = entry_writes(self.entries@);
        let entry = revocation_entry(jwt_token);
        proof {
            lemma_written_push(before, entry.key@, entry.expires_at as int);
        }
        self.entries.push(entry);
        assert(entry_writes(self.entries@) =~= before.push((entry.key@, entry.expires_at as int)));
        Ok(())
    }

    /// Whether the store holds the token as revoked; the moment does not
    /// matter to a store that lets go only when it is told to.
    fn is_blacklisted(&self, raw_token: RawJwtRefreshToken, now: i64) -> (r: Result<bool, Error>)
        ensures
            r matches Ok(found) && found == self.revoked().contains_key(raw_token@),
    {
        let ghost writes = entry_writes(self.entries@);
        let mut i: usize = self.entries.len();
        while i > 0
            invariant
                i <= self.entries.len(),
                writes == entry_writes(self.entries@),
                forall|k: int| i <= k < writes.len() ==> writes[k].0 != raw_token@,
            decreases i,
        {
            i = i - 1;
            if self.entries[i].key == raw_token.0 {
                proof {
                    lemma_written_last(writes, raw_token@, i as int);
                }
                return Ok(true);
            }
        }
        proof {
            lemma_written_absent(writes, raw_token@);
        }
        Ok(false)
    }
}

/// Revoking a token once or twice comes to the same: it is revoked after
/// the first time and after the second, until the same expiry.
pub proof fn lemma_revocation_is_idempotent(revoked: Map<Seq<char>, int>, token: Seq<char>, expiry: int)
    ensures
        revoked.insert(token, expiry).contains_key(token),
        revoked.insert(token, expiry).insert(token, expiry).contains_key(token),
        revoked.insert(token, expiry).insert(token, expiry) == revoked.insert(token, expiry),
{
    assert(revoked.insert(token, expiry).insert(token, expiry) =~= revoked.insert(token, expiry));
}

/// A revoked token stays revoked whatever is revoked after it.
pub proof fn lemma_revocation_stays(
    revoked: Map<Seq<char>, int>,
    token: Seq<char>,
    other: Seq<char>,
    expiry: int,
)
    requires
        revoked.contains_key(token),
    ensures
        revoked.insert(other, expiry).contains_key(token),
{
}

/// A revoked token does not come back before its time: as long as the
/// store is reclaimed at moments up to the token's expiry only, the token
/// stays revoked.
pub proof fn lemma_revoked_until_expiry(
    revoked: Map<Seq<char>, int>,
    after: Map<Seq<char>, int>,
    token: Seq<char>,
    expiry: int,
    now: int,
)
    requires
        reclaimed(revoked.insert(token, expiry), after, now),
        now <= expiry,
    ensures
        after.contains_key(token),
        after[token] == expiry,
{
    assert(revoked.insert(token, expiry).contains_key(token));
    assert(after.contains_key(token));
}

/// The revoked tokens after a run of revocations, taken in order.
pub open spec fn revoked_after(
    revoked: Map<Seq<char>, int>,
    revocations: Seq<(Seq<char>, int)>,
) -> Map<Seq<char>, int>
    decreases revocations.len(),
{
    if revocations.len() == 0 {
        revoked
    } else {
        revoked_after(revoked, revocations.drop_last()).insert(
            revocations.last().0,
            revocations.last().1,
        )
    }
}

/// Once a token is revoked until `expiry`, it stays so through every run
/// of further revocations, of this token and of others, as long as each
/// revocation of this token runs until `expiry` at least, as it does where
/// the expiry is the token's own. So at every moment up to `expiry` every
/// store has to answer that the token is held: asking changes nothing, and
/// the answer does not go back to `false` before the token's expiry.
pub proof fn lemma_revoked_through_any_calls(
    reclaims: bool,
    revoked: Map<Seq<char>, int>,
    revocations: Seq<(Seq<char>, int)>,
    token: Seq<char>,
    expiry: int,
    now: int,
)
    requires
        revoked.contains_key(token),
        revoked[token] >= expiry,
        forall|i: int|
            0 <= i < revocations.len() && revocations[i].0 == token ==> revocations[i].1
                >= expiry,
        now <= expiry,
    ensures
        revoked_after(revoked, revocations).contains_key(token),
        revoked_after(revoked, revocations)[token] >= expiry,
        still_revoked(reclaims, revoked_after(revoked, revocations), token, now),
        !may_answer(reclaims, revoked_after(revoked, revocations), token, now, false),
    decreases revocations.len(),
{
    if revocations.len() > 0 {
        let earlier = revocations.drop_last();
        assert forall|i: int| 0 <= i < earlier.len() && earlier[i].0 == token implies earlier[i].1
            >= expiry by {
            assert(earlier[i] == revocations[i]);
        }
        lemma_revoked_through_any_calls(reclaims, revoked, earlier, token, expiry, now);
        assert(revocations.last() == revocations[revocations.len() - 1]);
    }
}

} // verus!
