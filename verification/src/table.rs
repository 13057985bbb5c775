//! The insertion-ordered maps that hold the translations of one language:
//! per sheet from key to value, and over all sheets from sheet name to the
//! sheet's translations.

use vstd::prelude::*;
use vstd::string::*;
use indexmap::IndexMap;
use crate::assoc::{lookup, upsert};

verus! {

/// `indexmap::IndexMap`, a hash map that keeps its entries in the order in
/// which their keys were first inserted.
#[verifier::external_type_specification]
#[verifier::external_body]
#[verifier::reject_recursive_types(K)]
#[verifier::reject_recursive_types(V)]
#[verifier::reject_recursive_types(S)]
pub struct ExIndexMap<K, V, S>(IndexMap<K, V, S>);

/// The translations of one sheet as a list of key and value, in order.
pub type Entries = Seq<(Seq<char>, Seq<char>)>;

/// The entries of a map from key to value, in the map's order.
pub uninterp spec fn table_entries(table: IndexMap<String, String>) -> Entries;

/// The entries of a map from sheet name to translations, in the map's order.
pub uninterp spec fn tables_entries(tables: IndexMap<String, IndexMap<String, String>>) -> Seq<
    (Seq<char>, Entries),
>;

/// Calls `IndexMap::new`.
///
/// Trusted: the new map has no entries.
#[verifier::external_body]
pub(crate) fn table_new() -> (table: IndexMap<String, String>)
    ensures
        table_entries(table) == Seq::<(Seq<char>, Seq<char>)>::empty(),
{
    IndexMap::new()
}

/// Calls `IndexMap::insert`.
///
/// Trusted: an entry with an equal key keeps its place and takes the new
/// value; otherwise the pair becomes the last entry.
#[verifier::external_body]
pub(crate) fn table_insert(table: &mut IndexMap<String, String>, key: String, value: String)
    ensures
        table_entries(*final(table)) == upsert(table_entries(*old(table)), key@, value@),
{
    table.insert(key, value);
}

/// Calls `IndexMap::iter` and copies each pair.
///
/// Trusted: the pairs come in the map's order.
#[verifier::external_body]
pub(crate) fn table_items(table: &IndexMap<String, String>) -> (items: Vec<(String, String)>)
    ensures
        items.deep_view() == table_entries(*table),
{
    table.iter().map(|(k, v)| (k.clone(), v.clone())).collect()
}

/// Calls `IndexMap::new`.
///
/// Trusted: the new map has no entries.
#[verifier::external_body]
pub(crate) fn tables_new() -> (tables: IndexMap<String, IndexMap<String, String>>)
    ensures
        tables_entries(tables) == Seq::<(Seq<char>, Entries)>::empty(),
{
    IndexMap::new()
}

/// Calls `IndexMap::insert`.
///
/// Trusted: an entry with an equal key keeps its place and takes the new
/// value; otherwise the pair becomes the last entry.
#[verifier::external_body]
pub(crate) fn tables_insert(
    tables: &mut IndexMap<String, IndexMap<String, String>>,
    name: String,
    table: IndexMap<String, String>,
)
    ensures
        tables_entries(*final(tables)) == upsert(
            tables_entries(*old(tables)),
            name@,
            table_entries(table),
        ),
{
    tables.insert(name, table);
}

/// Calls `IndexMap::get`.
///
/// Trusted: the result is the value of the entry whose key equals `name`,
/// and `None` where there is no such entry.
#[verifier::external_body]
pub(crate) fn tables_get<'a>(
    tables: &'a IndexMap<String, IndexMap<String, String>>,
    name: &String,
) -> (found: Option<&'a IndexMap<String, String>>)
    ensures
        match found {
            Some(table) => lookup(tables_entries(*tables), name@) == Some(table_entries(*table)),
            None => lookup(tables_entries(*tables), name@) is None,
        },
{
    tables.get(name)
}

} // verus!
