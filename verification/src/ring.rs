//! The order of a conversation's entries, kept in a `ringmap::RingMap` from message id to the
//! time the message was sent or received, sorted by that time.
use ringmap::RingMap;
use std::cmp::Ordering;
use vstd::prelude::*;

verus! {

#[verifier::external_type_specification]
#[verifier::external_body]
#[verifier::reject_recursive_types(K)]
#[verifier::reject_recursive_types(V)]
#[verifier::reject_recursive_types(S)]
pub struct ExRingMap<K, V, S>(RingMap<K, V, S>);

/// The (key, value) pairs a ring map of message ids to times holds, front to back.
pub uninterp spec fn ring_pairs(m: RingMap<u32, u32>) -> Seq<(u32, u32)>;

/// No key occurs twice.
pub open spec fn keys_unique(s: Seq<(u32, u32)>) -> bool {
    forall|i: int, j: int| 0 <= i < s.len() && 0 <= j < s.len() && i != j ==> s[i].0 != s[j].0
}

/// The values never decrease from front to back.
pub open spec fn sorted_by_value(s: Seq<(u32, u32)>) -> bool {
    forall|i: int, j: int| 0 <= i <= j < s.len() ==> s[i].1 <= s[j].1
}

/// The pairs without the one whose key is `k`, if there is one.
pub open spec fn without_key(s: Seq<(u32, u32)>, k: u32) -> Seq<(u32, u32)> {
    if exists|j: int| 0 <= j < s.len() && s[j].0 == k {
        s.remove(choose|j: int| 0 <= j < s.len() && s[j].0 == k)
    } else {
        s
    }
}

/// The three-way comparison of two times, used to find where a new entry goes.
pub fn time_order(a: &u32, b: &u32) -> (o: Ordering)
    ensures
        (o is Less) == (*a < *b),
        (o is Equal) == (*a == *b),
        (o is Greater) == (*a > *b),
{
    if *a < *b {
        Ordering::Less
    } else if *a == *b {
        Ordering::Equal
    } else {
        Ordering::Greater
    }
}

/// `RingMap::new`: an empty map.
#[verifier::external_body]
pub(crate) fn ring_new() -> (m: RingMap<u32, u32>)
    ensures
        ring_pairs(m) == Seq::<(u32, u32)>::empty(),
{
    RingMap::new()
}

/// `RingMap::len`: the number of pairs.
#[verifier::external_body]
pub(crate) fn ring_len(m: &RingMap<u32, u32>) -> (n: usize)
    ensures
        n == ring_pairs(*m).len(),
{
    m.len()
}

/// `RingMap::get_index`: the pair at position `i`, front to back, if there is one.
#[verifier::external_body]
pub(crate) fn ring_get_index(m: &RingMap<u32, u32>, i: usize) -> (r: Option<(u32, u32)>)
    ensures
        r == (if i < ring_pairs(*m).len() { Some(ring_pairs(*m)[i as int]) } else { None }),
{
    m.get_index(i).map(|(k, v)| (*k, *v))
}

/// `RingMap::pop_front`: remove and return the front pair, if there is one; the other pairs
/// keep their order.
#[verifier::external_body]
pub(crate) fn ring_pop_front(m: &mut RingMap<u32, u32>) -> (r: Option<(u32, u32)>)
    ensures
        ring_pairs(*old(m)).len() == 0 ==> r is None && ring_pairs(*final(m)) == ring_pairs(*old(m)),
        ring_pairs(*old(m)).len() > 0 ==> r == Some(ring_pairs(*old(m))[0]) && ring_pairs(*final(m))
            == ring_pairs(*old(m)).drop_first(),
{
    m.pop_front()
}

/// `RingMap::insert_sorted_by` with the pairs compared by value: the position is found by a
/// binary search for `value` among the values, and the pair `(key, value)` is put there, the
/// pair that had `key` before (if any) being moved there. Keys stay unique; when the values
/// were sorted, they stay sorted. Among equal values, where the new pair goes is not stated.
#[verifier::external_body]
pub(crate) fn ring_insert_sorted_by_value(m: &mut RingMap<u32, u32>, key: u32, value: u32)
    ensures
        keys_unique(ring_pairs(*old(m))) ==> keys_unique(ring_pairs(*final(m))),
        exists|i: int|
            0 <= i <= without_key(ring_pairs(*old(m)), key).len() && ring_pairs(*final(m))
                == without_key(ring_pairs(*old(m)), key).insert(i, (key, value)),
        sorted_by_value(ring_pairs(*old(m))) ==> sorted_by_value(ring_pairs(*final(m))),
{
    m.insert_sorted_by(key, value, |_k1, v1, _k2, v2| time_order(v1, v2));
}

} // verus!
