//! Records kept in the order they were written, read as a map from key to
//! the record written last under it.

use vstd::prelude::*;

verus! {

/// The map that a list of writes stands for: each write puts its value
/// under its key, a later write over an earlier one.
pub open spec fn written<V>(writes: Seq<(Seq<char>, V)>) -> Map<Seq<char>, V>
    decreases writes.len(),
{
    if writes.len() == 0 {
        Map::empty()
    } else {
        written(writes.drop_last()).insert(writes.last().0, writes.last().1)
    }
}

/// One more write puts its value under its key and leaves the rest.
pub proof fn lemma_written_push<V>(writes: Seq<(Seq<char>, V)>, key: Seq<char>, value: V)
    ensures
        written(writes.push((key, value))) == written(writes).insert(key, value),
{
    assert(writes.push((key, value)).drop_last() =~= writes);
}

/// A key that no write of the list names is not in the map.
pub proof fn lemma_written_absent<V>(writes: Seq<(Seq<char>, V)>, key: Seq<char>)
    requires
        forall|i: int| 0 <= i < writes.len() ==> writes[i].0 != key,
    ensures
        !written(writes).contains_key(key),
    decreases writes.len(),
{
    if writes.len() > 0 {
        let front = writes.drop_last();
        assert forall|i: int| 0 <= i < front.len() implies front[i].0 != key by {
            assert(front[i] == writes[i]);
        }
        lemma_written_absent(front, key);
        assert(writes.last() == writes[writes.len() - 1]);
    }
}

/// The map holds under a key the value of the last write that names it.
pub proof fn lemma_written_last<V>(writes: Seq<(Seq<char>, V)>, key: Seq<char>, at: int)
    requires
        0 <= at < writes.len(),
        writes[at].0 == key,
        forall|i: int| at < i < writes.len() ==> writes[i].0 != key,
    ensures
        written(writes).contains_key(key),
        written(writes)[key] == writes[at].1,
    decreases writes.len(),
{
    if at < writes.len() - 1 {
        let front = writes.drop_last();
        assert(front[at] == writes[at]);
        assert forall|i: int| at < i < front.len() implies front[i].0 != key by {
            assert(front[i] == writes[i]);
        }
        lemma_written_last(front, key, at);
        assert(writes.last() == writes[writes.len() - 1]);
    }
}

} // verus!
