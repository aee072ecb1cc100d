//! Identifiers of records, and where new ones come from.

use std::marker::PhantomData;
use vstd::prelude::*;

verus! {

/// The identifier of a record of kind `T`: a 64-bit number, set once.
#[derive(Debug)]
pub struct Id<T>(i64, PhantomData<T>);

impl<T> View for Id<T> {
    type V = int;

    closed spec fn view(&self) -> int {
        self.0 as int
    }
}

impl<T> Clone for Id<T> {
    fn clone(&self) -> (r: Id<T>)
        ensures
            r@ == self@,
    {
        Id(self.0, PhantomData)
    }
}

impl<T> Copy for Id<T> {

}

impl<T> Id<T> {
    pub fn new(id: i64) -> (r: Id<T>)
        ensures
            r@ == id,
    {
        Id(id, PhantomData)
    }

    pub fn as_inner(&self) -> (inner: &i64)
        ensures
            *inner == self@,
    {
        &self.0
    }

    pub fn into_inner(self) -> (inner: i64)
        ensures
            inner == self@,
    {
        self.0
    }
}

/// A source of fresh identifiers for records of kind `T`. Which number comes
/// next is the source's own business; that it was this source that handed
/// a number out is on record.
pub trait IdProvider<T> {
    /// The numbers that the source has handed out, in order. A source says
    /// what it has handed out; of one that does not, only what `get`
    /// promises is known.
    open spec fn handed_out(&self) -> Seq<int> {
        arbitrary()
    }

    /// Hands out one more identifier.
    fn get(&mut self) -> (id: Id<T>)
        ensures
            final(self).handed_out() == old(self).handed_out().push(id@),
    ;
}

#[verifier::external_type_specification]
#[verifier::external_body]
pub struct ExSnowflakeIdGenerator(snowflake::SnowflakeIdGenerator);

/// `snowflake::SnowflakeIdGenerator::new` reads the clock for its starting
/// point; nothing is claimed of the generator it returns.
pub assume_specification[ snowflake::SnowflakeIdGenerator::new ](
    machine_id: i32,
    node_id: i32,
) -> snowflake::SnowflakeIdGenerator;

/// `snowflake::SnowflakeIdGenerator::real_time_generate` builds a number from
/// the clock, the machine and a counter; nothing is claimed of it.
pub assume_specification[ snowflake::SnowflakeIdGenerator::real_time_generate ](
    generator: &mut snowflake::SnowflakeIdGenerator,
) -> i64;

/// Identifiers made of the time, the machine and a counter.
pub struct SnowflakeIdProvider<T> {
    snowflake_id_generator: snowflake::SnowflakeIdGenerator,
    handed: Ghost<Seq<int>>,
    phantom: PhantomData<T>,
}

impl<T> SnowflakeIdProvider<T> {
    pub fn new() -> (r: Self)
        ensures
            r.handed_out() == Seq::<int>::empty(),
    {
        let snowflake_id_generator = snowflake::SnowflakeIdGenerator::new(1, 1);
        SnowflakeIdProvider {
            snowflake_id_generator,
            handed: Ghost(Seq::empty()),
            phantom: PhantomData,
        }
    }
}

impl<T> IdProvider<T> for SnowflakeIdProvider<T> {
    closed spec fn handed_out(&self) -> Seq<int> {
        self.handed@
    }

    fn get(&mut self) -> (id: Id<T>) {
        let id = self.snowflake_id_generator.real_time_generate();
        self.handed = Ghost(self.handed@.push(id as int));
        Id::new(id)
    }
}

/// Identifiers counted up from a starting number: the choice for tests and
/// wherever the numbers must be known beforehand.
pub struct SequentialIdProvider<T> {
    next: i64,
    handed: Ghost<Seq<int>>,
    phantom: PhantomData<T>,
}

impl<T> SequentialIdProvider<T> {
    pub fn starting_at(first: i64) -> (r: Self)
        ensures
            r.upcoming() == first,
            r.handed_out() == Seq::<int>::empty(),
    {
        SequentialIdProvider { next: first, handed: Ghost(Seq::empty()), phantom: PhantomData }
    }

    /// The number that the next identifier carries.
    pub closed spec fn upcoming(&self) -> int {
        self.next as int
    }

    /// Hands out the upcoming number; after the largest number the count
    /// starts over at the smallest.
    pub fn take(&mut self) -> (id: Id<T>)
        ensures
            id@ == old(self).upcoming(),
            final(self).upcoming() == (if old(self).upcoming() == i64::MAX {
                i64::MIN as int
            } else {
                old(self).upcoming() + 1
            }),
            final(self).handed_out() == old(self).handed_out().push(id@),
    {
        let id = self.next;
        self.handed = Ghost(self.handed@.push(id as int));
        self.next = if id == i64::MAX {
            i64::MIN
        } else {
            id + 1
        };
        Id::new(id)
    }
}

impl<T> IdProvider<T> for SequentialIdProvider<T> {
    closed spec fn handed_out(&self) -> Seq<int> {
        self.handed@
    }

    fn get(&mut self) -> (id: Id<T>)
        ensures
            id@ == old(self).upcoming(),
            final(self).upcoming() == (if old(self).upcoming() == i64::MAX {
                i64::MIN as int
            } else {
                old(self).upcoming() + 1
            }),
    {
        self.take()
    }
}

} // verus!
