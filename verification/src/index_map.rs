//! The insertion-ordered hash map that holds the notifications.
//!
//! The map is `indexmap::IndexMap`. Nothing in this module is proved: each
//! function below states what the map's own documentation and source say of
//! one of its methods, over the sequence of key-value pairs that the map
//! holds.

use crate::notification::{Notification, NotificationView};
use indexmap::IndexMap;
use vstd::prelude::*;

verus! {

/// `indexmap::IndexMap`, as a type whose inside the proofs do not see.
#[verifier::external_type_specification]
#[verifier::external_body]
#[verifier::reject_recursive_types(K)]
#[verifier::reject_recursive_types(V)]
#[verifier::reject_recursive_types(S)]
pub struct ExIndexMap<K, V, S>(IndexMap<K, V, S>);

/// The key-value pairs that a map holds, in the map's order, each value by
/// its view: the pair at position `i` is the one that
/// `IndexMap::get_index(i)` hands out.
pub uninterp spec fn entries(map: IndexMap<usize, Notification>) -> Seq<(usize, NotificationView)>;

/// Calls `IndexMap::default`, which returns a map that holds nothing.
#[verifier::external_body]
pub(crate) fn empty_map() -> (map: IndexMap<usize, Notification>)
    ensures
        entries(map) == Seq::<(usize, NotificationView)>::empty(),
{
    IndexMap::default()
}

/// Calls `IndexMap::values` and collects what it yields: a reference to each
/// value that the map holds, in the map's order.
#[verifier::external_body]
pub(crate) fn values<'a>(map: &'a IndexMap<usize, Notification>) -> (found: Vec<&'a Notification>)
    ensures
        found@.len() == entries(*map).len(),
        forall|i: int| 0 <= i < found@.len() ==> (#[trigger] found@[i])@ == entries(*map)[i].1,
{
    map.values().collect()
}

/// Calls `IndexMap::keys` and takes the last key that it yields: the key of
/// the pair that is last in the map's order, or nothing when the map is empty.
#[verifier::external_body]
pub(crate) fn last_key(map: &IndexMap<usize, Notification>) -> (key: Option<usize>)
    ensures
        match key {
            Some(k) => entries(*map).len() > 0 && k == entries(*map).last().0,
            None => entries(*map).len() == 0,
        },
{
    map.keys().last().copied()
}

/// Calls `IndexMap::insert`. Where the map holds the key, the pair keeps its
/// place, takes the new value, and the value it had comes back. Where it does
/// not, the pair is appended last in the order and nothing comes back.
#[verifier::external_body]
pub(crate) fn insert(map: &mut IndexMap<usize, Notification>, key: usize, value: Notification) -> (previous: Option<Notification>)
    ensures
        match previous {
            Some(v) => exists|i: int|
                0 <= i < entries(*old(map)).len() && (#[trigger] entries(*old(map))[i]).0 == key
                    && v@ == entries(*old(map))[i].1
                    && entries(*final(map)) == entries(*old(map)).update(i, (key, value@)),
            None => (forall|i: int|
                0 <= i < entries(*old(map)).len() ==> (#[trigger] entries(*old(map))[i]).0 != key)
                && entries(*final(map)) == entries(*old(map)).push((key, value@)),
        },
{
    map.insert(key, value)
}

/// Calls `IndexMap::get`: a reference to the value stored under the key, or
/// nothing when the map does not hold the key.
#[verifier::external_body]
pub(crate) fn get<'a>(map: &'a IndexMap<usize, Notification>, key: usize) -> (found: Option<&'a Notification>)
    ensures
        match found {
            Some(v) => exists|i: int|
                0 <= i < entries(*map).len() && (#[trigger] entries(*map)[i]).0 == key
                    && v@ == entries(*map)[i].1,
            None => forall|i: int|
                0 <= i < entries(*map).len() ==> (#[trigger] entries(*map)[i]).0 != key,
        },
{
    map.get(&key)
}

/// Calls `IndexMap::get_mut`: a mutable reference to the value stored under
/// the key, or nothing when the map does not hold the key. The map ends up
/// with whatever is written through the reference, in the same place, and is
/// otherwise unchanged.
#[verifier::external_body]
pub(crate) fn get_mut<'a>(map: &'a mut IndexMap<usize, Notification>, key: usize) -> (found: Option<&'a mut Notification>)
    ensures
        match found {
            Some(v) => exists|i: int|
                0 <= i < entries(*old(map)).len() && (#[trigger] entries(*old(map))[i]).0 == key
                    && v@ == entries(*old(map))[i].1
                    && entries(*final(map)) == entries(*old(map)).update(i, (key, final(v)@)),
            None => (forall|i: int|
                0 <= i < entries(*old(map)).len() ==> (#[trigger] entries(*old(map))[i]).0 != key)
                && entries(*final(map)) == entries(*old(map)),
        },
{
    map.get_mut(&key)
}

/// Calls `IndexMap::shift_remove`. Where the map holds the key, the pair
/// leaves, the pairs after it move up by one place in their order, and the
/// value comes back. Where it does not, nothing changes and nothing comes
/// back.
#[verifier::external_body]
pub(crate) fn shift_remove(map: &mut IndexMap<usize, Notification>, key: usize) -> (removed: Option<Notification>)
    ensures
        match removed {
            Some(v) => exists|i: int|
                0 <= i < entries(*old(map)).len() && (#[trigger] entries(*old(map))[i]).0 == key
                    && v@ == entries(*old(map))[i].1
                    && entries(*final(map)) == entries(*old(map)).remove(i),
            None => (forall|i: int|
                0 <= i < entries(*old(map)).len() ==> (#[trigger] entries(*old(map))[i]).0 != key)
                && entries(*final(map)) == entries(*old(map)),
        },
{
    map.shift_remove(&key)
}

} // verus!
