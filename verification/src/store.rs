//! The keyed collection that holds the tracked documents. Everything here
//! is stated of the `dashmap` crate and taken on trust.
//!
//! The map can be changed through a shared reference. This library changes
//! it only through an exclusive one, so that what a map holds is a matter
//! of the calls made on it.

use vstd::prelude::*;
use dashmap::DashMap;
use dashmap::mapref::one::Ref;
use crate::document::{Document, DocumentView};

verus! {

/// `dashmap::DashMap`: a hash map that locks its entries shard by shard.
#[verifier::external_type_specification]
#[verifier::external_body]
#[verifier::reject_recursive_types(K)]
#[verifier::reject_recursive_types(V)]
#[verifier::reject_recursive_types(S)]
pub struct ExDashMap<K, V, S>(dashmap::DashMap<K, V, S>);

/// `dashmap::mapref::one::Ref`: a reference to one entry of a map, which
/// holds the entry's lock while it lives.
#[verifier::external_type_specification]
#[verifier::external_body]
#[verifier::reject_recursive_types(K)]
#[verifier::reject_recursive_types(V)]
pub struct ExRef<'a, K, V>(dashmap::mapref::one::Ref<'a, K, V>);

/// The documents that a map holds, by their address.
pub uninterp spec fn store_docs(map: DashMap<String, Document>) -> Map<Seq<char>, DocumentView>;

/// The collection that holds no document.
pub open spec fn no_documents() -> Map<Seq<char>, DocumentView> {
    Map::empty()
}

/// The document that a reference into a map points at.
pub uninterp spec fn guarded_doc(guard: Ref<String, Document>) -> DocumentView;

/// `DashMap::new`: a map that holds nothing.
#[verifier::external_body]
pub(crate) fn store_new() -> (store: DashMap<String, Document>)
    ensures
        store_docs(store) == no_documents(),
{
    DashMap::new()
}

/// `DashMap::insert`: the map then holds the value under the key, in
/// place of what it held there before.
#[verifier::external_body]
pub(crate) fn store_insert(map: &mut DashMap<String, Document>, key: String, doc: Document)
    ensures
        store_docs(*final(map)) == store_docs(*old(map)).insert(key@, doc@),
{
    map.insert(key, doc);
}

/// `DashMap::remove`: the map then holds nothing under the key, and what
/// it held there is handed out.
#[verifier::external_body]
pub(crate) fn store_remove(map: &mut DashMap<String, Document>, key: &str) -> (removed: Option<Document>)
    ensures
        store_docs(*final(map)) == store_docs(*old(map)).remove(key@),
        removed.is_some() == store_docs(*old(map)).contains_key(key@),
        removed.is_some() ==> removed.unwrap()@ == store_docs(*old(map))[key@],
{
    match map.remove(key) {
        Some((_, doc)) => Some(doc),
        None => None,
    }
}

/// `DashMap::get`: a reference to what the map holds under the key.
#[verifier::external_body]
pub(crate) fn store_get<'a>(map: &'a DashMap<String, Document>, key: &str) -> (guard: Option<
    Ref<'a, String, Document>,
>)
    ensures
        guard.is_some() == store_docs(*map).contains_key(key@),
        guard.is_some() ==> guarded_doc(guard.unwrap()) == store_docs(*map)[key@],
{
    map.get(key)
}

/// `Ref::value`: the value that the reference points at.
#[verifier::external_body]
pub(crate) fn guard_value<'a, 'b>(guard: &'a Ref<'b, String, Document>) -> (doc: &'a Document)
    ensures
        doc@ == guarded_doc(*guard),
{
    guard.value()
}

} // verus!
