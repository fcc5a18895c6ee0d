//! The calls into `slab` that the server's table of connections makes.

use vstd::prelude::*;
use crate::connection::Connection;

verus! {

/// `slab::Slab`, a table that hands out the keys of its entries.
#[verifier::external_type_specification]
#[verifier::external_body]
#[verifier::reject_recursive_types(T)]
pub struct ExSlab<T>(slab::Slab<T>);

/// The entries of a table of connections, by key.
pub uninterp spec fn slab_entries(s: slab::Slab<Connection>) -> Map<usize, Connection>;

/// The key that the table's next insertion takes.
pub uninterp spec fn slab_next_key(s: slab::Slab<Connection>) -> usize;

/// The table without entries.
pub open spec fn no_connections() -> Map<usize, Connection> {
    Map::empty()
}

/// Calls `slab::Slab::with_capacity`. Claimed: the table is empty and its
/// first insertion takes the key 0.
#[verifier::external_body]
pub(crate) fn slab_with_capacity(capacity: usize) -> (r: slab::Slab<Connection>)
    requires
        capacity <= 4096,
    ensures
        slab_entries(r) == no_connections(),
        slab_next_key(r) == 0,
{
    slab::Slab::with_capacity(capacity)
}

/// Calls `slab::Slab::len`. Claimed: the number of entries.
#[verifier::external_body]
pub(crate) fn slab_len(s: &slab::Slab<Connection>) -> (r: usize)
    ensures
        r == slab_entries(*s).len(),
{
    s.len()
}

/// Calls `slab::Slab::vacant_key`. Claimed: it is the key that the next
/// insertion takes, and no entry holds it.
#[verifier::external_body]
pub(crate) fn slab_vacant_key(s: &slab::Slab<Connection>) -> (r: usize)
    ensures
        r == slab_next_key(*s),
        !slab_entries(*s).dom().contains(r),
{
    s.vacant_key()
}

/// Calls `slab::Slab::insert`. Claimed: the value is stored under the key
/// that `vacant_key` gave before, which is returned, and no other entry changes.
#[verifier::external_body]
pub(crate) fn slab_insert(s: &mut slab::Slab<Connection>, c: Connection) -> (r: usize)
    ensures
        r == slab_next_key(*old(s)),
        slab_entries(*final(s)) == slab_entries(*old(s)).insert(r, c),
{
    s.insert(c)
}

/// Calls `slab::Slab::try_remove`. Claimed: an entry under `key` is taken
/// out and returned; without one, `None` comes back and nothing changes.
#[verifier::external_body]
pub(crate) fn slab_try_remove(s: &mut slab::Slab<Connection>, key: usize) -> (r: Option<Connection>)
    ensures
        slab_entries(*old(s)).dom().contains(key) ==> r == Some(slab_entries(*old(s))[key])
            && slab_entries(*final(s)) == slab_entries(*old(s)).remove(key),
        !slab_entries(*old(s)).dom().contains(key) ==> r is None && slab_entries(*final(s))
            == slab_entries(*old(s)),
{
    s.try_remove(key)
}

/// Calls `slab::Slab::get` and copies the entry out. Claimed: the entry
/// under `key`, if there is one.
#[verifier::external_body]
pub(crate) fn slab_get(s: &slab::Slab<Connection>, key: usize) -> (r: Option<Connection>)
    ensures
        slab_entries(*s).dom().contains(key) ==> r == Some(slab_entries(*s)[key]),
        !slab_entries(*s).dom().contains(key) ==> r is None,
{
    match s.get(key) {
        Some(c) => Some(*c),
        None => None,
    }
}

/// Stores `c` under `key` through `slab::Slab`'s `IndexMut`, which panics
/// when no entry holds the key. Claimed: only that entry changes.
#[verifier::external_body]
pub(crate) fn slab_set(s: &mut slab::Slab<Connection>, key: usize, c: Connection)
    requires
        slab_entries(*old(s)).dom().contains(key),
    ensures
        slab_entries(*final(s)) == slab_entries(*old(s)).insert(key, c),
{
    s[key] = c;
}

/// Collects the keys that `slab::Slab::iter` walks, which is the order of
/// the table's slots. Claimed: every key of an entry, once, rising.
#[verifier::external_body]
pub(crate) fn slab_keys(s: &slab::Slab<Connection>) -> (r: Vec<usize>)
    ensures
        forall|k: usize| r@.contains(k) <==> slab_entries(*s).dom().contains(k),
        forall|i: int, j: int| 0 <= i < j < r@.len() ==> r@[i] < r@[j],
{
    s.iter().map(|(k, _)| k).collect()
}

} // verus!
