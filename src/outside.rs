//! The outside types and calls that the store rests on, each with the
//! contract that the library believes of it.
use vstd::prelude::*;

use bytes::Bytes;
use radix_trie::{Trie, TrieCommon};
use std::sync::{Arc, RwLock};
use tokio::sync::broadcast::{Receiver, Sender};

use crate::record::IndividualVideo;

verus! {

#[verifier::external_type_specification]
#[verifier::external_body]
pub struct ExBytes(bytes::Bytes);

#[verifier::external_type_specification]
#[verifier::external_body]
#[verifier::reject_recursive_types(T)]
pub struct ExSender<T>(tokio::sync::broadcast::Sender<T>);

#[verifier::external_type_specification]
#[verifier::external_body]
#[verifier::reject_recursive_types(T)]
pub struct ExReceiver<T>(tokio::sync::broadcast::Receiver<T>);

#[verifier::external_type_specification]
#[verifier::external_body]
#[verifier::reject_recursive_types(T)]
pub struct ExRwLock<T: ?Sized>(std::sync::RwLock<T>);

#[verifier::external_type_specification]
#[verifier::external_body]
#[verifier::reject_recursive_types(K)]
#[verifier::reject_recursive_types(V)]
pub struct ExTrie<K, V>(radix_trie::Trie<K, V>);

/// A shared handle on one resource record; the namespace is one holder
/// among possibly several.
pub type Handle = Arc<RwLock<IndividualVideo>>;

/// A path with the handle stored under it.
pub type Entry = (String, Handle);

/// The index from paths to handles.
pub type PathTrie = Trie<String, Handle>;

/// The bytes that a chunk holds.
pub uninterp spec fn chunk_bytes(b: Bytes) -> Seq<u8>;

/// Every value that the channel has accepted for its receivers, in order
/// of sending: the values before the channel's tail position.
pub uninterp spec fn sent_log(tx: Sender<Bytes>) -> Seq<Seq<u8>>;

/// The capacity that the channel was made with (before the channel rounds
/// it up to a power of two).
pub uninterp spec fn capacity_of(tx: Sender<Bytes>) -> nat;

/// The record that a handle was made around.
pub uninterp spec fn made_with(h: Handle) -> IndividualVideo;

/// The position in the channel's log of the next value a receiver reads.
pub uninterp spec fn next_index(rx: Receiver<Bytes>) -> nat;

/// The path-to-handle pairs that a trie holds.
pub uninterp spec fn trie_entries(t: PathTrie) -> Map<Seq<char>, Handle>;

/// Relies on `Bytes::clone`: the copy is a handle on the same bytes.
pub assume_specification[ <bytes::Bytes as Clone>::clone ](b: &bytes::Bytes) -> (r: bytes::Bytes)
    ensures
        chunk_bytes(r) == chunk_bytes(*b),
;

/// Relies on `tokio::sync::broadcast::channel`: a new channel has accepted
/// nothing yet. It panics on a zero capacity and on one above `usize::MAX / 2`.
/// The receiver that it also returns is dropped at once.
#[verifier::external_body]
pub(crate) fn new_channel(capacity: usize) -> (r: Sender<Bytes>)
    requires
        0 < capacity <= usize::MAX / 2,
    ensures
        sent_log(r) == Seq::<Seq<u8>>::empty(),
        capacity_of(r) == capacity,
{
    let (tx, _rx) = tokio::sync::broadcast::channel::<Bytes>(capacity);
    tx
}

/// Relies on `Sender::send`: with at least one receiver the value is put at
/// the tail of the channel and `Ok` comes back; with none, `Err` comes back
/// and the tail stays where it was. `send` takes `&self`; the `&mut` here
/// lets the contract say how the channel changed.
#[verifier::external_body]
pub(crate) fn publish(tx: &mut Sender<Bytes>, value: Bytes) -> (r: bool)
    ensures
        r ==> sent_log(*final(tx)) == sent_log(*old(tx)).push(chunk_bytes(value)),
        !r ==> sent_log(*final(tx)) == sent_log(*old(tx)),
        capacity_of(*final(tx)) == capacity_of(*old(tx)),
{
    tx.send(value).is_ok()
}

/// Relies on `Sender::subscribe`: the new receiver reads from the current
/// tail, so its first value is the next one sent. (It panics only past
/// `usize::MAX >> 2` live receivers, a count that memory rules out.)
#[verifier::external_body]
pub(crate) fn subscribe(tx: &Sender<Bytes>) -> (r: Receiver<Bytes>)
    ensures
        next_index(r) == sent_log(*tx).len(),
{
    tx.subscribe()
}

/// Relies on `RwLock::new` and `Arc::new`: a fresh shared handle around
/// `record`.
#[verifier::external_body]
pub(crate) fn new_handle(record: IndividualVideo) -> (r: Handle)
    ensures
        made_with(r) == record,
{
    Arc::new(RwLock::new(record))
}

/// Relies on `Trie::new`: an empty trie.
#[verifier::external_body]
pub(crate) fn trie_new() -> (r: PathTrie)
    ensures
        trie_entries(r).dom().is_empty(),
{
    Trie::new()
}

/// Relies on `Trie::get`: the value stored at exactly `key`, if any; the
/// handle is cloned, which shares the record.
#[verifier::external_body]
pub(crate) fn trie_get(t: &PathTrie, key: &String) -> (r: Option<Handle>)
    ensures
        r == if trie_entries(*t).contains_key(key@) {
            Some(trie_entries(*t)[key@])
        } else {
            None
        },
{
    t.get(key).cloned()
}

/// Relies on `Trie::insert`: the key now maps to the value, replacing any
/// earlier one; the other keys are untouched.
#[verifier::external_body]
pub(crate) fn trie_insert(t: &mut PathTrie, key: String, value: Handle)
    ensures
        trie_entries(*final(t)) == trie_entries(*old(t)).insert(key@, value),
{
    t.insert(key, value);
}

/// Relies on `Trie::remove`: the key is unlinked and its value handed back.
#[verifier::external_body]
pub(crate) fn trie_remove(t: &mut PathTrie, key: &String) -> (r: Option<Handle>)
    ensures
        trie_entries(*final(t)) == trie_entries(*old(t)).remove(key@),
        r == if trie_entries(*old(t)).contains_key(key@) {
            Some(trie_entries(*old(t))[key@])
        } else {
            None
        },
{
    t.remove(key)
}

/// Relies on `Trie::get_raw_descendant` and `TrieCommon::iter`: every stored
/// key that starts with `prefix`, once each, with its value.
#[verifier::external_body]
pub(crate) fn trie_descendants(t: &PathTrie, prefix: &Vec<char>) -> (r: Vec<Entry>)
    ensures
        forall|i: int|
            0 <= i < r@.len() ==> {
                &&& trie_entries(*t).contains_key(#[trigger] r@[i].0@)
                &&& trie_entries(*t)[r@[i].0@] == r@[i].1
                &&& prefix@.is_prefix_of(r@[i].0@)
            },
        forall|i: int, j: int| 0 <= i < j < r@.len() ==> r@[i].0@ != r@[j].0@,
        forall|k: Seq<char>|
            #[trigger] trie_entries(*t).contains_key(k) && prefix@.is_prefix_of(k) ==> exists|i: int|
                0 <= i < r@.len() && r@[i].0@ == k,
{
    let prefix: String = prefix.iter().collect();
    match t.get_raw_descendant(&prefix) {
        Some(sub) => sub.iter().map(|(k, v)| (k.clone(), v.clone())).collect(),
        None => Vec::new(),
    }
}

} // verus!
