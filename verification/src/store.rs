//! The concurrent map that holds the ledger's records, and what the ledger
//! takes for granted of it.

use crate::asset::Asset;
use dashmap::DashMap;
use vstd::prelude::*;

verus! {

/// `dashmap::DashMap`, a concurrent hash map, known here by name only.
#[verifier::external_type_specification]
#[verifier::external_body]
#[verifier::reject_recursive_types(K)]
#[verifier::reject_recursive_types(V)]
#[verifier::reject_recursive_types(S)]
pub struct ExDashMap<K, V, S>(DashMap<K, V, S>);

/// The records that a map holds, by key: an account and an asset's code.
pub uninterp spec fn records(m: DashMap<(usize, u8), Asset>) -> Map<(usize, u8), Asset>;

/// Calls `DashMap::new`. The contract claims that the new map holds nothing.
#[verifier::external_body]
pub(crate) fn new_records() -> (m: DashMap<(usize, u8), Asset>)
    ensures
        records(m).dom() == Set::<(usize, u8)>::empty(),
{
    DashMap::new()
}

/// Calls `DashMap::get` and copies the record out. The contract claims that
/// the map hands out the record filed under `key`, or `None` where it holds
/// none.
#[verifier::external_body]
pub(crate) fn find_record(m: &DashMap<(usize, u8), Asset>, key: (usize, u8)) -> (r: Option<Asset>)
    ensures
        r == if records(*m).contains_key(key) {
            Some(records(*m)[key])
        } else {
            None
        },
{
    match m.get(&key) {
        Some(found) => Some(*found.value()),
        None => None,
    }
}

/// Calls `DashMap::entry` and `Entry::or_insert`, and copies the record
/// out. The contract claims that a map that holds a record under `key`
/// stays as it is, that any other map gains `fresh` under `key` and nothing
/// else, and that the record then filed under `key` is handed out.
#[verifier::external_body]
pub(crate) fn find_or_file_record(
    m: &mut DashMap<(usize, u8), Asset>,
    key: (usize, u8),
    fresh: Asset,
) -> (r: Asset)
    ensures
        records(*final(m)) == if records(*old(m)).contains_key(key) {
            records(*old(m))
        } else {
            records(*old(m)).insert(key, fresh)
        },
        r == records(*final(m))[key],
{
    *m.entry(key).or_insert(fresh).value()
}

/// Calls `DashMap::insert`. The contract claims that afterwards the map
/// holds `record` under `key`, and under every other key what it held
/// before.
#[verifier::external_body]
pub(crate) fn file_record(m: &mut DashMap<(usize, u8), Asset>, key: (usize, u8), record: Asset)
    ensures
        records(*final(m)) == records(*old(m)).insert(key, record),
{
    m.insert(key, record);
}

} // verus!
