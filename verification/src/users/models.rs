//! The user aggregate: a profile and the connections to the identity
//! providers that the user signed in through.

use vstd::prelude::*;

use crate::auth::models::OAuthProvider;
use crate::clock;
use crate::error::AppError;
use crate::id::Id;
use crate::users::values::{Email, OAuthAccessToken, Password, Username};

verus! {

/// Marks the identifiers of users.
#[derive(Debug)]
pub struct UserKind;

/// Marks the identifiers of login connections.
#[derive(Debug)]
pub struct LoginConnectionKind;

/// A user's link to one identity provider.
#[derive(Debug)]
pub struct LoginConnection {
    pub id: Id<LoginConnectionKind>,
    pub provider: OAuthProvider,
    pub access_token: OAuthAccessToken,
    /// Unix timestamp of the first sign-in through the provider.
    pub created_at: i64,
    /// Unix timestamp of the latest sign-in through the provider.
    pub last_connection: i64,
}

/// The mathematical value of a [`LoginConnection`].
pub struct LoginConnectionView {
    pub id: int,
    pub provider: OAuthProvider,
    pub access_token: Seq<char>,
    pub created_at: int,
    pub last_connection: int,
}

impl View for LoginConnection {
    type V = LoginConnectionView;

    open spec fn view(&self) -> LoginConnectionView {
        LoginConnectionView {
            id: self.id@,
            provider: self.provider,
            access_token: self.access_token@,
            created_at: self.created_at as int,
            last_connection: self.last_connection as int,
        }
    }
}

/// A user: the profile, and at most one connection for each provider.
#[derive(Debug)]
pub struct User {
    pub id: Id<UserKind>,
    pub username: Username,
    pub email: Option<Email>,
    /// The password of a user who registered with one.
    pub password: Option<Password>,
    /// Unix timestamp of the user's creation.
    pub created_at: i64,
    pub login_connections: Vec<LoginConnection>,
}

/// The mathematical value of a [`User`].
pub struct UserView {
    pub id: int,
    pub username: Seq<char>,
    pub email: Option<Seq<char>>,
    pub password: Option<Seq<char>>,
    pub created_at: int,
    pub login_connections: Seq<LoginConnectionView>,
}

/// The values of a list of connections, in order.
pub open spec fn connection_views(connections: Seq<LoginConnection>) -> Seq<LoginConnectionView> {
    Seq::new(connections.len(), |i: int| connections[i]@)
}

impl View for User {
    type V = UserView;

    open spec fn view(&self) -> UserView {
        UserView {
            id: self.id@,
            username: self.username@,
            email: match self.email {
                Some(email) => Some(email@),
                None => None,
            },
            password: match self.password {
                Some(password) => Some(password@),
                None => None,
            },
            created_at: self.created_at as int,
            login_connections: connection_views(self.login_connections@),
        }
    }
}

/// No two connections of the list belong to one provider.
pub open spec fn one_per_provider(connections: Seq<LoginConnectionView>) -> bool {
    forall|i: int, j: int|
        0 <= i < j < connections.len() ==> connections[i].provider != connections[j].provider
}

/// The place of the first connection of `provider` in the list, or the
/// length of the list where there is none.
pub open spec fn place_of(connections: Seq<LoginConnectionView>, provider: OAuthProvider) -> int
    decreases connections.len(),
{
    if connections.len() == 0 {
        0
    } else if connections[0].provider == provider {
        0
    } else {
        1 + place_of(connections.drop_first(), provider)
    }
}

/// How many connections of the list belong to `provider`.
pub open spec fn count_of(connections: Seq<LoginConnectionView>, provider: OAuthProvider) -> nat
    decreases connections.len(),
{
    if connections.len() == 0 {
        0
    } else {
        count_of(connections.drop_last(), provider) + (if connections.last().provider
            == provider {
            1nat
        } else {
            0nat
        })
    }
}

/// The connection as it is made at `now` for a sign-in through `provider`.
pub open spec fn fresh_connection(
    id: int,
    provider: OAuthProvider,
    access_token: Seq<char>,
    now: int,
) -> LoginConnectionView {
    LoginConnectionView { id, provider, access_token, created_at: now, last_connection: now }
}

/// The connections after a sign-in at `now` that brought `incoming`: the
/// connection of the same provider takes the new access token and `now` as
/// its latest sign-in, and keeps the rest; without one, `incoming` is added
/// at the end.
pub open spec fn merged_connections(
    connections: Seq<LoginConnectionView>,
    incoming: LoginConnectionView,
    now: int,
) -> Seq<LoginConnectionView> {
    let at = place_of(connections, incoming.provider);
    if at < connections.len() {
        connections.update(
            at,
            LoginConnectionView {
                access_token: incoming.access_token,
                last_connection: now,
                ..connections[at]
            },
        )
    } else {
        connections.push(incoming)
    }
}

/// The user after a sign-in at `now` that brought `incoming`.
pub open spec fn merged(user: UserView, incoming: LoginConnectionView, now: int) -> UserView {
    UserView {
        login_connections: merged_connections(user.login_connections, incoming, now),
        ..user
    }
}

/// The user as it is made at `now` for a first sign-in through a provider.
pub open spec fn created(
    id: int,
    username: Seq<char>,
    email: Option<Seq<char>>,
    connection: LoginConnectionView,
    now: int,
) -> UserView {
    UserView {
        id,
        username,
        email,
        password: None,
        created_at: now,
        login_connections: seq![connection],
    }
}

/// The user as it is made at `now` by a registration with a password.
pub open spec fn registered(
    id: int,
    username: Seq<char>,
    email: Seq<char>,
    password: Seq<char>,
    now: int,
) -> UserView {
    UserView {
        id,
        username,
        email: Some(email),
        password: Some(password),
        created_at: now,
        login_connections: Seq::empty(),
    }
}

/// `place_of` is the first place that holds the provider, and the length
/// where no place does.
pub proof fn lemma_place_of(connections: Seq<LoginConnectionView>, provider: OAuthProvider)
    ensures
        0 <= place_of(connections, provider) <= connections.len(),
        forall|k: int|
            0 <= k < place_of(connections, provider) ==> connections[k].provider != provider,
        place_of(connections, provider) < connections.len() ==> connections[place_of(
            connections,
            provider,
        )].provider == provider,
    decreases connections.len(),
{
    if connections.len() > 0 && connections[0].provider != provider {
        let rest = connections.drop_first();
        lemma_place_of(rest, provider);
        assert forall|k: int| 0 <= k < place_of(connections, provider) implies connections[k].provider
            != provider by {
            if k > 0 {
                assert(connections[k] == rest[k - 1]);
            }
        }
        if place_of(connections, provider) < connections.len() {
            assert(connections[place_of(connections, provider)] == rest[place_of(rest, provider)]);
        }
    }
}

/// Where `at` is the first place that holds the provider, or the length and
/// no place holds it, `place_of` is `at`.
pub proof fn lemma_place_found(
    connections: Seq<LoginConnectionView>,
    provider: OAuthProvider,
    at: int,
)
    requires
        0 <= at <= connections.len(),
        forall|k: int| 0 <= k < at ==> connections[k].provider != provider,
        at < connections.len() ==> connections[at].provider == provider,
    ensures
        place_of(connections, provider) == at,
{
    lemma_place_of(connections, provider);
    let found = place_of(connections, provider);
    if found < at {
        assert(connections[found].provider != provider);
    }
}

/// In a list with one connection per provider at most, a provider that
/// holds a place is counted once, and one that holds none is not counted.
pub proof fn lemma_count_of(connections: Seq<LoginConnectionView>, provider: OAuthProvider)
    requires
        one_per_provider(connections),
    ensures
        count_of(connections, provider) == (if place_of(connections, provider)
            < connections.len() {
            1nat
        } else {
            0nat
        }),
    decreases connections.len(),
{
    lemma_place_of(connections, provider);
    if connections.len() > 0 {
        let front = connections.drop_last();
        assert forall|i: int, j: int| 0 <= i < j < front.len() implies front[i].provider
            != front[j].provider by {
            assert(front[i] == connections[i] && front[j] == connections[j]);
        }
        lemma_count_of(front, provider);
        lemma_place_of(front, provider);
        let at = place_of(connections, provider);
        let front_at = place_of(front, provider);
        if front_at < front.len() {
            assert(front[front_at] == connections[front_at]);
            assert forall|k: int| 0 <= k < front_at implies connections[k].provider
                != provider by {
                assert(front[k] == connections[k]);
            }
            lemma_place_found(connections, provider, front_at);
        } else {
            assert forall|k: int| 0 <= k < front.len() implies connections[k].provider
                != provider by {
                assert(front[k] == connections[k]);
            }
            if connections.last().provider == provider {
                lemma_place_found(connections, provider, connections.len() - 1);
            } else {
                lemma_place_found(connections, provider, connections.len() as int);
            }
        }
    }
}

/// A sign-in keeps one connection per provider at most, and leaves exactly
/// one for the provider that the user signed in through.
pub proof fn lemma_merge_keeps_one_per_provider(
    connections: Seq<LoginConnectionView>,
    incoming: LoginConnectionView,
    now: int,
)
    requires
        one_per_provider(connections),
    ensures
        one_per_provider(merged_connections(connections, incoming, now)),
        count_of(merged_connections(connections, incoming, now), incoming.provider) == 1,
        place_of(merged_connections(connections, incoming, now), incoming.provider) == place_of(
            connections,
            incoming.provider,
        ),
{
    let after = merged_connections(connections, incoming, now);
    let at = place_of(connections, incoming.provider);
    lemma_place_of(connections, incoming.provider);
    if at < connections.len() {
        assert forall|i: int, j: int| 0 <= i < j < after.len() implies after[i].provider
            != after[j].provider by {
            assert(after[i].provider == connections[i].provider);
            assert(after[j].provider == connections[j].provider);
        }
        assert forall|k: int| 0 <= k < at implies after[k].provider != incoming.provider by {
            assert(after[k] == connections[k]);
        }
    } else {
        assert forall|i: int, j: int| 0 <= i < j < after.len() implies after[i].provider
            != after[j].provider by {
            assert(after[i] == connections[i]);
            if j < connections.len() {
                assert(after[j] == connections[j]);
            }
        }
        assert forall|k: int| 0 <= k < at implies after[k].provider != incoming.provider by {
            assert(after[k] == connections[k]);
        }
    }
    lemma_place_found(after, incoming.provider, at);
    lemma_count_of(after, incoming.provider);
}

/// One sign-in through a provider: the identifier and the access token that
/// its connection would carry, and when it happens.
pub struct SignIn {
    pub connection_id: int,
    pub access_token: Seq<char>,
    pub at: int,
}

/// The user after a run of sign-ins through one provider, taken in order.
pub open spec fn after_sign_ins(
    user: UserView,
    provider: OAuthProvider,
    sign_ins: Seq<SignIn>,
) -> UserView
    decreases sign_ins.len(),
{
    if sign_ins.len() == 0 {
        user
    } else {
        let latest = sign_ins.last();
        merged(
            after_sign_ins(user, provider, sign_ins.drop_last()),
            fresh_connection(latest.connection_id, provider, latest.access_token, latest.at),
            latest.at,
        )
    }
}

/// The user's connection for a provider.
pub open spec fn connection_of(user: UserView, provider: OAuthProvider) -> LoginConnectionView
    recommends
        place_of(user.login_connections, provider) < user.login_connections.len(),
{
    user.login_connections[place_of(user.login_connections, provider)]
}

/// However often a user signs in through one provider, the user ends with
/// exactly one connection for it, and that connection carries the access
/// token and the time of the latest sign-in.
pub proof fn lemma_repeated_sign_ins(user: UserView, provider: OAuthProvider, sign_ins: Seq<SignIn>)
    requires
        one_per_provider(user.login_connections),
        sign_ins.len() > 0,
    ensures
        one_per_provider(after_sign_ins(user, provider, sign_ins).login_connections),
        count_of(after_sign_ins(user, provider, sign_ins).login_connections, provider) == 1,
        connection_of(after_sign_ins(user, provider, sign_ins), provider).provider == provider,
        connection_of(after_sign_ins(user, provider, sign_ins), provider).last_connection
            == sign_ins.last().at,
        connection_of(after_sign_ins(user, provider, sign_ins), provider).access_token
            == sign_ins.last().access_token,
    decreases sign_ins.len(),
{
    let earlier = sign_ins.drop_last();
    let before = after_sign_ins(user, provider, earlier);
    if earlier.len() > 0 {
        lemma_repeated_sign_ins(user, provider, earlier);
    }
    let latest = sign_ins.last();
    let incoming = fresh_connection(latest.connection_id, provider, latest.access_token, latest.at);
    lemma_merge_keeps_one_per_provider(before.login_connections, incoming, latest.at);
    lemma_place_of(before.login_connections, provider);
}

/// While the clock does not go back, the time of the latest sign-in that a
/// user's connection carries does not go back either: after more sign-ins it
/// is no earlier than after fewer.
pub proof fn lemma_last_connection_never_goes_back(
    user: UserView,
    provider: OAuthProvider,
    sign_ins: Seq<SignIn>,
    fewer: int,
    more: int,
)
    requires
        one_per_provider(user.login_connections),
        0 < fewer <= more <= sign_ins.len(),
        forall|i: int, j: int| 0 <= i <= j < sign_ins.len() ==> sign_ins[i].at <= sign_ins[j].at,
    ensures
        connection_of(after_sign_ins(user, provider, sign_ins.take(fewer)), provider).last_connection
            <= connection_of(
            after_sign_ins(user, provider, sign_ins.take(more)),
            provider,
        ).last_connection,
{
    lemma_repeated_sign_ins(user, provider, sign_ins.take(fewer));
    lemma_repeated_sign_ins(user, provider, sign_ins.take(more));
    assert(sign_ins.take(fewer).last() == sign_ins[fewer - 1]);
    assert(sign_ins.take(more).last() == sign_ins[more - 1]);
}

/// A user who first signs in through one provider and then through another
/// ends with two connections, one for each.
pub proof fn lemma_cross_provider_sign_ins(
    id: int,
    username: Seq<char>,
    email: Option<Seq<char>>,
    first: LoginConnectionView,
    second: LoginConnectionView,
    first_at: int,
    second_at: int,
)
    requires
        first.provider != second.provider,
    ensures
        merged(created(id, username, email, first, first_at), second, second_at).login_connections
            == seq![first, second],
        one_per_provider(
            merged(
                created(id, username, email, first, first_at),
                second,
                second_at,
            ).login_connections,
        ),
        count_of(
            merged(
                created(id, username, email, first, first_at),
                second,
                second_at,
            ).login_connections,
            first.provider,
        ) == 1,
        count_of(
            merged(
                created(id, username, email, first, first_at),
                second,
                second_at,
            ).login_connections,
            second.provider,
        ) == 1,
{
    let start = seq![first];
    lemma_place_found(start, second.provider, 1);
    let after = merged_connections(start, second, second_at);
    assert(after =~= seq![first, second]);
    assert(one_per_provider(start));
    lemma_merge_keeps_one_per_provider(start, second, second_at);
    lemma_place_found(after, first.provider, 0);
    lemma_count_of(after, first.provider);
}

impl LoginConnection {
    /// A connection made now: see [`LoginConnection::new_at`].
    pub fn new(
        id: Id<LoginConnectionKind>,
        provider: OAuthProvider,
        access_token: OAuthAccessToken,
    ) -> (connection: LoginConnection)
        ensures
            connection@ == fresh_connection(
                id@,
                provider,
                access_token@,
                connection@.created_at,
            ),
    {
        let now = clock::now();
        LoginConnection::new_at(id, provider, access_token, now)
    }

    /// A connection made at `now`, which is both its creation and its latest
    /// sign-in.
    pub fn new_at(
        id: Id<LoginConnectionKind>,
        provider: OAuthProvider,
        access_token: OAuthAccessToken,
        now: i64,
    ) -> (connection: LoginConnection)
        ensures
            connection@ == fresh_connection(id@, provider, access_token@, now as int),
    {
        LoginConnection { id, provider, access_token, created_at: now, last_connection: now }
    }

    /// A copy of the connection.
    pub fn duplicate(&self) -> (copy: LoginConnection)
        ensures
            copy@ == self@,
    {
        LoginConnection {
            id: self.id,
            provider: self.provider,
            access_token: self.access_token.clone(),
            created_at: self.created_at,
            last_connection: self.last_connection,
        }
    }
}

impl User {
    /// The user holds one connection per provider at most.
    pub open spec fn wf(&self) -> bool {
        one_per_provider(self@.login_connections)
    }

    /// Whether the user holds one connection per provider at most.
    pub fn has_one_per_provider(&self) -> (ok: bool)
        ensures
            ok == self.wf(),
    {
        let n = self.login_connections.len();
        let mut j: usize = 0;
        while j < n
            invariant
                n == self.login_connections.len(),
                j <= n,
                forall|a: int, b: int|
                    0 <= a < b < j ==> self@.login_connections[a].provider
                        != self@.login_connections[b].provider,
            decreases n - j,
        {
            let mut i: usize = 0;
            while i < j
                invariant
                    n == self.login_connections.len(),
                    i <= j < n,
                    forall|a: int|
                        0 <= a < i ==> self@.login_connections[a].provider
                            != self@.login_connections[j as int].provider,
                decreases j - i,
            {
                if self.login_connections[i].provider == self.login_connections[j].provider {
                    assert(self@.login_connections[i as int].provider
                        == self@.login_connections[j as int].provider);
                    return false;
                }
                i = i + 1;
            }
            j = j + 1;
        }
        true
    }

    /// A user made now for a first sign-in: see [`User::new_at`].
    pub fn new(
        id: Id<UserKind>,
        username: Username,
        email: Option<Email>,
        login_connection: LoginConnection,
    ) -> (user: User)
        ensures
            user.wf(),
            user@ == created(
                id@,
                username@,
                match email {
                    Some(e) => Some(e@),
                    None => None,
                },
                login_connection@,
                user@.created_at,
            ),
    {
        let now = clock::now();
        User::new_at(id, username, email, login_connection, now)
    }

    /// A user made at `now` for a first sign-in, with the one connection
    /// that the sign-in brought and no password.
    pub fn new_at(
        id: Id<UserKind>,
        username: Username,
        email: Option<Email>,
        login_connection: LoginConnection,
        now: i64,
    ) -> (user: User)
        ensures
            user.wf(),
            user@ == created(
                id@,
                username@,
                match email {
                    Some(e) => Some(e@),
                    None => None,
                },
                login_connection@,
                now as int,
            ),
    {
        let mut login_connections: Vec<LoginConnection> = Vec::new();
        login_connections.push(login_connection);
        let user = User {
            id,
            username,
            email,
            password: None,
            created_at: now,
            login_connections,
        };
        assert(user@.login_connections =~= seq![login_connection@]);
        user
    }

    /// A user made at `now` by a registration: a password and no connection.
    pub fn registered_at(
        id: Id<UserKind>,
        username: Username,
        email: Email,
        password: Password,
        now: i64,
    ) -> (user: User)
        ensures
            user.wf(),
            user@ == registered(id@, username@, email@, password@, now as int),
    {
        let user = User {
            id,
            username,
            email: Some(email),
            password: Some(password),
            created_at: now,
            login_connections: Vec::new(),
        };
        assert(user@.login_connections =~= Seq::empty());
        user
    }

    /// Takes in the connection of a sign-in that happens now: see
    /// [`User::add_or_update_login_connection_at`].
    pub fn add_or_update_login_connection(&mut self, new_connection: LoginConnection) -> (r: Result<
        (),
        AppError,
    >)
        requires
            old(self).wf(),
        ensures
            r is Ok,
            final(self).wf(),
            exists|now: int| final(self)@ == merged(old(self)@, new_connection@, now),
    {
        let now = clock::now();
        self.add_or_update_login_connection_at(new_connection, now)
    }

    /// Takes in the connection of a sign-in at `now`. The connection that
    /// the user has for the same provider gets the new access token and `now`
    /// as its latest sign-in, and keeps its identifier and its creation time;
    /// a user without one gets the new connection, after the others.
    pub fn add_or_update_login_connection_at(
        &mut self,
        new_connection: LoginConnection,
        now: i64,
    ) -> (r: Result<(), AppError>)
        requires
            old(self).wf(),
        ensures
            r is Ok,
            final(self).wf(),
            final(self)@ == merged(old(self)@, new_connection@, now as int),
    {
        let ghost before = self@.login_connections;
        let mut at: usize = 0;
        let mut found = false;
        while at < self.login_connections.len() && !found
            invariant
                at <= self.login_connections.len(),
                self@.login_connections == before,
                *self == *old(self),
                forall|k: int| 0 <= k < at ==> before[k].provider != new_connection.provider,
                found ==> at < before.len() && before[at as int].provider
                    == new_connection.provider,
            decreases self.login_connections.len() - at + (if found { 0int } else { 1int }),
        {
            if self.login_connections[at].provider == new_connection.provider {
                found = true;
            } else {
                at = at + 1;
            }
        }
        proof {
            lemma_place_found(before, new_connection.provider, at as int);
            lemma_merge_keeps_one_per_provider(before, new_connection@, now as int);
        }
        if at < self.login_connections.len() {
            let existing = &self.login_connections[at];
            let updated = LoginConnection {
                id: existing.id,
                provider: existing.provider,
                access_token: new_connection.access_token,
                created_at: existing.created_at,
                last_connection: now,
            };
            self.login_connections.set(at, updated);
        } else {
            self.login_connections.push(new_connection);
        }
        assert(self@.login_connections =~= merged_connections(
            before,
            new_connection@,
            now as int,
        ));
        Ok(())
    }

    /// The connection that the user has for a provider, if any.
    pub fn connection_for(&self, provider: OAuthProvider) -> (r: Option<&LoginConnection>)
        ensures
            match r {
                Some(connection) => place_of(self@.login_connections, provider)
                    < self@.login_connections.len() && connection@
                    == self@.login_connections[place_of(self@.login_connections, provider)],
                None => place_of(self@.login_connections, provider)
                    == self@.login_connections.len(),
            },
    {
        let mut at: usize = 0;
        while at < self.login_connections.len()
            invariant
                at <= self.login_connections.len(),
                forall|k: int|
                    0 <= k < at ==> self@.login_connections[k].provider != provider,
            decreases self.login_connections.len() - at,
        {
            if self.login_connections[at].provider == provider {
                proof {
                    lemma_place_found(self@.login_connections, provider, at as int);
                }
                return Some(&self.login_connections[at]);
            }
            at = at + 1;
        }
        proof {
            lemma_place_found(self@.login_connections, provider, at as int);
        }
        None
    }

    /// A copy of the user, connections included.
    pub fn duplicate(&self) -> (copy: User)
        ensures
            copy@ == self@,
    {
        let mut login_connections: Vec<LoginConnection> = Vec::new();
        let mut i: usize = 0;
        while i < self.login_connections.len()
            invariant
                i <= self.login_connections.len(),
                login_connections.len() == i,
                forall|k: int| 0 <= k < i ==> login_connections[k]@ == self.login_connections[k]@,
            decreases self.login_connections.len() - i,
        {
            login_connections.push(self.login_connections[i].duplicate());
            i = i + 1;
        }
        let copy = User {
            id: self.id,
            username: self.username.clone(),
            email: match &self.email {
                Some(email) => Some(email.clone()),
                None => None,
            },
            password: match &self.password {
                Some(password) => Some(password.clone()),
                None => None,
            },
            created_at: self.created_at,
            login_connections,
        };
        assert(copy@.login_connections =~= self@.login_connections);
        copy
    }
}

} // verus!
