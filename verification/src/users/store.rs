//! Where users are kept: looked up by username, written whole.

use vstd::prelude::*;

use crate::error::Error;
use crate::keyed::{lemma_written_absent, lemma_written_last, lemma_written_push, written};
use crate::users::models::{User, UserView};
use crate::users::values::Username;

verus! {

/// A store of users. A user is read and written as a whole, the profile
/// together with its connections.
pub trait UserStore {
    /// The users that the store holds, by username. A store says what it
    /// holds; of one that does not, only what the operations promise is
    /// known.
    open spec fn users(&self) -> Map<Seq<char>, UserView> {
        arbitrary()
    }

    /// The store is in order: what it needs for its operations to keep
    /// their promises.
    open spec fn wf(&self) -> bool {
        true
    }

    /// Whether a store of this kind answers every call. Unless a store says
    /// so, it may fail.
    open spec fn infallible() -> bool {
        false
    }

    /// The user of that name with all its connections, if the store holds
    /// one.
    fn find_by_username(&self, username: &Username) -> (r: Result<Option<User>, Error>)
        requires
            self.wf(),
        ensures
            Self::infallible() ==> r is Ok,
            match r {
                Ok(Some(user)) => self.users().contains_key(username@) && user@
                    == self.users()[username@] && user.wf() && user.username@ == username@,
                Ok(None) => !self.users().contains_key(username@),
                Err(_) => true,
            },
    ;

    /// What the store, as it stood, answered when it was asked to save the
    /// user, and how it stands since.
    open spec fn save_gave(&self, user: &User, after: &Self, answer: Result<(), Error>) -> bool {
        true
    }

    /// Writes the user under its name, over the user that the store held
    /// under it, if any. Where the store fails, nothing has changed.
    fn save(&mut self, user: &User) -> (r: Result<(), Error>)
        requires
            old(self).wf(),
            user.wf(),
        ensures
            old(self).save_gave(user, final(self), r),
            final(self).wf(),
            Self::infallible() ==> r is Ok,
            r is Ok ==> final(self).users() == old(self).users().insert(user.username@, user@),
            r is Err ==> final(self).users() == old(self).users(),
    ;
}

/// What the store answered when it was asked for the user of a name.
pub open spec fn lookup_gave<U: UserStore>(
    store: &U,
    username: Username,
    answer: Result<Option<User>, Error>,
) -> bool {
    call_ensures(U::find_by_username, (store, &username), answer)
}

/// The store, as it stood, answered `answer` when it was asked to save a
/// user of that value, and stands as `after` since.
pub open spec fn save_answered<U: UserStore>(
    store: &U,
    user: UserView,
    after: &U,
    answer: Result<(), Error>,
) -> bool {
    exists|saved: User| saved@ == user && #[trigger] store.save_gave(&saved, after, answer)
}

/// The user that a map of users holds under a name, if any.
pub open spec fn held(users: Map<Seq<char>, UserView>, username: Seq<char>) -> Option<UserView> {
    if users.contains_key(username) {
        Some(users[username])
    } else {
        None
    }
}

/// A store of users that lives in memory and never fails.
pub struct MemoryUserStore {
    records: Vec<User>,
}

/// The writes that a list of saved users stands for.
pub open spec fn user_writes(records: Seq<User>) -> Seq<(Seq<char>, UserView)> {
    Seq::new(records.len(), |i: int| (records[i].username@, records[i]@))
}

impl MemoryUserStore {
    /// A store without users.
    pub fn new() -> (store: MemoryUserStore)
        ensures
            store.wf(),
            store.users() == Map::<Seq<char>, UserView>::empty(),
    {
        let store = MemoryUserStore { records: Vec::new() };
        assert(user_writes(store.records@) =~= Seq::empty());
        store
    }
}

impl UserStore for MemoryUserStore {
    closed spec fn users(&self) -> Map<Seq<char>, UserView> {
        written(user_writes(self.records@))
    }

    closed spec fn wf(&self) -> bool {
        forall|i: int| 0 <= i < self.records@.len() ==> (#[trigger] self.records@[i]).wf()
    }

    open spec fn infallible() -> bool {
        true
    }

    fn find_by_username(&self, username: &Username) -> (r: Result<Option<User>, Error>) {
        let ghost writes = user_writes(self.records@);
        let mut i: usize = self.records.len();
        while i > 0
            invariant
                i <= self.records.len(),
                self.wf(),
                writes == user_writes(self.records@),
                forall|k: int| i <= k < writes.len() ==> writes[k].0 != username@,
            decreases i,
        {
            i = i - 1;
            if self.records[i].username.same_as(username) {
                proof {
                    assert(writes[i as int] == (self.records@[i as int].username@, self.records@[i as int]@));
                    assert(self.records@[i as int].wf());
                    lemma_written_last(writes, username@, i as int);
                }
                return Ok(Some(self.records[i].duplicate()));
            }
        }
        proof {
            lemma_written_absent(writes, username@);
        }
        Ok(None)
    }

    fn save(&mut self, user: &User) -> (r: Result<(), Error>) {
        let ghost before = user_writes(self.records@);
        proof {
            lemma_written_push(before, user.username@, user@);
        }
        self.records.push(user.duplicate());
        assert(user_writes(self.records@) =~= before.push((user.username@, user@)));
        Ok(())
    }
}

} // verus!
