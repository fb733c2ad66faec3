//! The concurrent map behind the reverse-DNS cache, and what is taken on
//! trust about it.

use vstd::prelude::*;
use dashmap::DashMap;
use crate::dns::{AddressKey, CacheEntry, CachedName};

verus! {

/// Cached answers as mathematics: each address with the name found for it,
/// if any, and the time at which the answer expires.
pub type NameMap = Map<AddressKey, CachedName>;

/// The answers that a table holds.
pub uninterp spec fn names_of(table: DashMap<AddressKey, CacheEntry>) -> NameMap;

/// `DashMap::new`: a table without answers.
#[verifier::external_body]
pub(crate) fn name_table_new() -> (table: DashMap<AddressKey, CacheEntry>)
    ensures
        names_of(table) == NameMap::empty(),
{
    DashMap::new()
}

/// `DashMap::get`, and a copy of what it refers to: the answer held for
/// `key`, if any.
#[verifier::external_body]
pub(crate) fn name_table_get(table: &DashMap<AddressKey, CacheEntry>, key: AddressKey) -> (found:
    Option<CacheEntry>)
    ensures
        match found {
            Some(entry) => names_of(*table).contains_key(key) && names_of(*table)[key] == entry@,
            None => !names_of(*table).contains_key(key),
        },
{
    table.get(&key).map(|entry| entry.value().clone())
}

/// `DashMap::insert`: the answer for `key` is set, replacing an earlier
/// one. No other key is touched.
#[verifier::external_body]
pub(crate) fn name_table_insert(
    table: &mut DashMap<AddressKey, CacheEntry>,
    key: AddressKey,
    entry: CacheEntry,
)
    ensures
        names_of(*final(table)) == names_of(*old(table)).insert(key, entry@),
{
    table.insert(key, entry);
}

/// `DashMap::len`: the number of answers held.
#[verifier::external_body]
pub(crate) fn name_table_len(table: &DashMap<AddressKey, CacheEntry>) -> (n: usize)
    ensures
        n == names_of(*table).dom().len(),
{
    table.len()
}

} // verus!
