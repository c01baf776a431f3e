//! The concurrent table that sends each route key to the slot of its handler.
//!
//! The table is a `dashmap::DashMap`. Verus does not read that crate, so what
//! the table holds is a name, `slot_entries`, and each call into the crate is
//! a small function whose contract is taken on trust from the crate's source.

use dashmap::DashMap;
use vstd::prelude::*;

verus! {

/// `dashmap::DashMap`, made known to the verifier as an opaque type.
#[verifier::external_type_specification]
#[verifier::external_body]
#[verifier::reject_recursive_types(K)]
#[verifier::reject_recursive_types(V)]
#[verifier::reject_recursive_types(S)]
pub struct ExDashMap<K, V, S>(DashMap<K, V, S>);

/// The entries of a slot table: which keys it holds, and the slot of each.
pub uninterp spec fn slot_entries(slots: DashMap<String, usize>) -> Map<Seq<char>, usize>;

/// `DashMap::new`: a table without entries.
///
/// Trusted: the crate builds its shards with empty hash maps.
#[verifier::external_body]
pub(crate) fn slots_new() -> (slots: DashMap<String, usize>)
    ensures
        forall|key: Seq<char>| !(#[trigger] slot_entries(slots).contains_key(key)),
{
    DashMap::new()
}

/// `DashMap::insert`: stores `slot` under `key`, in place of what the key had,
/// and returns what it had.
///
/// Trusted: the crate hashes the key to one shard and calls the shard's
/// `HashMap::insert`; no other entry is touched. The crate takes `&self`;
/// the exclusive borrow here is what lets the contract speak of the table
/// before and after the call. It also rules out the one case in which the
/// crate does not return: a caller that still holds a reference into the
/// table.
#[verifier::external_body]
pub(crate) fn slots_insert(slots: &mut DashMap<String, usize>, key: String, slot: usize) -> (previous:
    Option<usize>)
    ensures
        slot_entries(*final(slots)) == slot_entries(*old(slots)).insert(key@, slot),
        previous == slot_entries(*old(slots)).get(key@),
{
    slots.insert(key, slot)
}

/// `DashMap::get`: the slot stored under `key`, if the table holds the key.
///
/// Trusted: the crate looks the key up in its shard and hands out a guarded
/// reference to the value; the slot is copied out and the guard is released
/// before this function returns, so no lock outlives the call.
#[verifier::external_body]
pub(crate) fn slots_get(slots: &DashMap<String, usize>, key: &str) -> (slot: Option<usize>)
    ensures
        slot == slot_entries(*slots).get(key@),
{
    slots.get(key).map(|entry| *entry.value())
}

} // verus!
