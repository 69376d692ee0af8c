//! The table of known peers, held in a `DashMap` from a peer's address to
//! whether the peer is marked as subscribed to.

use crate::api::string_views;
use dashmap::DashMap;
use vstd::prelude::*;

verus! {

#[verifier::external_type_specification]
#[verifier::external_body]
#[verifier::reject_recursive_types(K)]
#[verifier::reject_recursive_types(V)]
#[verifier::reject_recursive_types(S)]
pub struct ExDashMap<K, V, S>(DashMap<K, V, S>);

/// The entries of a peer table: each address, by its characters, mapped to
/// its flag.
pub uninterp spec fn table_entries(table: DashMap<String, bool>) -> Map<Seq<char>, bool>;

/// `DashMap::with_capacity`: claims that the new map holds no entry.
#[verifier::external_body]
pub(crate) fn table_with_capacity(capacity: usize) -> (table: DashMap<String, bool>)
    ensures
        table_entries(table).dom() == Set::<Seq<char>>::empty(),
{
    DashMap::with_capacity(capacity)
}

/// `DashMap::insert`: claims that the key is mapped to the value afterwards,
/// that every other entry stays, and that the value the key had is returned.
#[verifier::external_body]
pub(crate) fn table_insert(table: &mut DashMap<String, bool>, key: String, value: bool) -> (prev:
    Option<bool>)
    ensures
        table_entries(*final(table)) == table_entries(*old(table)).insert(key@, value),
        prev == (if table_entries(*old(table)).contains_key(key@) {
            Some(table_entries(*old(table))[key@])
        } else {
            None
        }),
{
    table.insert(key, value)
}

/// `DashMap::entry` followed by `Entry::or_insert`: claims that a key that is
/// present keeps its value and that an absent key is added with the value.
#[verifier::external_body]
pub(crate) fn table_insert_if_absent(table: &mut DashMap<String, bool>, key: String, value: bool)
    ensures
        table_entries(*final(table)) == (if table_entries(*old(table)).contains_key(key@) {
            table_entries(*old(table))
        } else {
            table_entries(*old(table)).insert(key@, value)
        }),
{
    table.entry(key).or_insert(value);
}

/// `DashMap::iter`, each key taken: claims that every key of the map comes
/// out once, and nothing else; the order is the map's own.
#[verifier::external_body]
pub(crate) fn table_keys(table: &DashMap<String, bool>) -> (keys: Vec<String>)
    ensures
        string_views(keys@).no_duplicates(),
        string_views(keys@).to_set() == table_entries(*table).dom(),
{
    table.iter().map(|kv| kv.key().clone()).collect()
}

/// `DashMap::iter_mut`, each entry copied: claims that every entry of the map
/// comes out once, and nothing else; the order is the map's own.
#[verifier::external_body]
pub(crate) fn table_snapshot(table: &DashMap<String, bool>) -> (entries: Vec<(String, bool)>)
    ensures
        entry_keys(entries@).no_duplicates(),
        forall|i: int|
            #![trigger entries@[i]]
            0 <= i < entries.len() ==> table_entries(*table).contains_key(entries@[i].0@)
                && table_entries(*table)[entries@[i].0@] == entries@[i].1,
        forall|k: Seq<char>|
            table_entries(*table).contains_key(k) ==> #[trigger] entry_keys(entries@).contains(k),
{
    table.iter_mut().map(|kv| (kv.key().clone(), *kv.value())).collect()
}

/// `DashMap::clone`: claims that the copy holds the same entries. The copy
/// is a map of its own; writes to one do not reach the other.
#[verifier::external_body]
pub(crate) fn table_copy(table: &DashMap<String, bool>) -> (copy: DashMap<String, bool>)
    ensures
        table_entries(copy) == table_entries(*table),
{
    table.clone()
}

/// The keys of a list of entries, in order.
pub open spec fn entry_keys(entries: Seq<(String, bool)>) -> Seq<Seq<char>> {
    entries.map_values(|e: (String, bool)| e.0@)
}

} // verus!
