//! The namespace: slash-delimited paths indexed by prefix, each naming a
//! shared handle on a resource record.
use vstd::prelude::*;

use radix_trie::Trie;
use vstd::std_specs::iter::IteratorSpec;

use crate::delivery::StoreError;
use crate::outside::{
    made_with, new_handle, trie_descendants, trie_entries, trie_get, trie_insert, trie_new, trie_remove, Entry,
    Handle,
};
use crate::record::{lemma_exact_once, IndividualVideo, DEFAULT_CONTENT_TYPE, FEED_CAPACITY};

verus! {

broadcast use {vstd::string::axiom_spec_iter, vstd::string::next_postcondition};

/// The store's index. Removing or replacing a path only unlinks it: a reader
/// that already holds the old handle keeps the old record.
pub struct AppState {
    file_system: Trie<String, Handle>,
}

/// `s` without the wildcard markers at its end.
pub open spec fn trim_stars(s: Seq<char>) -> Seq<char>
    decreases s.len(),
{
    if s.len() > 0 && s.last() == '*' {
        trim_stars(s.drop_last())
    } else {
        s
    }
}

/// `k` is a stored path under `prefix`, wildcard markers aside.
pub open spec fn is_under(entries: Map<Seq<char>, Handle>, prefix: Seq<char>, k: Seq<char>) -> bool {
    entries.contains_key(k) && trim_stars(prefix).is_prefix_of(k)
}

/// The characters of `s`, one by one.
pub fn chars_of(s: &str) -> (r: Vec<char>)
    ensures
        r@ == s@,
{
    let mut it = s.chars();
    let mut out: Vec<char> = Vec::new();
    loop
        invariant
            out@ + it.remaining() == s@,
            it.decrease() is Some,
        ensures
            out@ == s@,
        decreases it.decrease()->0,
    {
        match it.next() {
            Some(c) => {
                out.push(c);
            },
            None => {
                assert(out@ + it.remaining() =~= out@);
                break ;
            },
        }
    }
    out
}

/// Whether `method` is the custom verb that lists a subtree.
pub fn is_list_verb(method: &str) -> (r: bool)
    ensures
        r == (method@ == seq!['L', 'I', 'S', 'T']),
{
    let cs = chars_of(method);
    if cs.len() != 4 {
        return false;
    }
    let r = cs[0] == 'L' && cs[1] == 'I' && cs[2] == 'S' && cs[3] == 'T';
    proof {
        if r {
            assert(cs@ =~= seq!['L', 'I', 'S', 'T']);
        }
    }
    r
}

/// The characters of `prefix` with the trailing wildcard markers taken off.
pub fn strip_wildcards(prefix: &str) -> (r: Vec<char>)
    ensures
        r@ == trim_stars(prefix@),
{
    let mut cs = chars_of(prefix);
    let mut k: usize = cs.len();
    assert(cs@.subrange(0, k as int) =~= cs@);
    while k > 0 && cs[k - 1] == '*'
        invariant
            k <= cs@.len(),
            cs@ == prefix@,
            trim_stars(cs@.subrange(0, k as int)) == trim_stars(prefix@),
        decreases k,
    {
        assert(cs@.subrange(0, k - 1) =~= cs@.subrange(0, k as int).drop_last());
        k = k - 1;
    }
    assert(trim_stars(cs@.subrange(0, k as int)) == cs@.subrange(0, k as int));
    cs.truncate(k);
    assert(cs@ =~= prefix@.subrange(0, k as int));
    cs
}

impl Default for AppState {
    fn default() -> (r: AppState)
        ensures
            r.entries().dom().is_empty(),
    {
        AppState::new()
    }
}

impl AppState {
    /// The paths stored, each with its handle.
    pub closed spec fn entries(&self) -> Map<Seq<char>, Handle> {
        trie_entries(self.file_system)
    }

    /// An empty namespace.
    pub fn new() -> (r: AppState)
        ensures
            r.entries().dom().is_empty(),
    {
        AppState { file_system: trie_new() }
    }

    /// The handle stored at exactly `path`.
    pub fn lookup(&self, path: &String) -> (r: Option<Handle>)
        ensures
            r == if self.entries().contains_key(path@) {
                Some(self.entries()[path@])
            } else {
                None
            },
    {
        trie_get(&self.file_system, path)
    }

    /// Every stored path under `prefix` (its trailing wildcard markers taken
    /// off), once each, with its handle; in no promised order.
    pub fn lookup_subtree(&self, prefix: &str) -> (r: Vec<Entry>)
        ensures
            forall|i: int|
                0 <= i < r@.len() ==> {
                    &&& self.entries().contains_key(#[trigger] r@[i].0@)
                    &&& self.entries()[r@[i].0@] == r@[i].1
                    &&& trim_stars(prefix@).is_prefix_of(r@[i].0@)
                },
            forall|i: int, j: int| 0 <= i < j < r@.len() ==> r@[i].0@ != r@[j].0@,
            forall|k: Seq<char>|
                #[trigger] self.entries().contains_key(k) && trim_stars(prefix@).is_prefix_of(k)
                    ==> exists|i: int| 0 <= i < r@.len() && r@[i].0@ == k,
    {
        let p = strip_wildcards(prefix);
        trie_descendants(&self.file_system, &p)
    }

    /// Stores `handle` at `path`, replacing whatever was there.
    pub fn insert(&mut self, path: String, handle: Handle)
        ensures
            final(self).entries() == old(self).entries().insert(path@, handle),
    {
        trie_insert(&mut self.file_system, path, handle);
    }

    /// Unlinks `path`; tells whether something was stored there.
    pub fn remove(&mut self, path: &String) -> (r: bool)
        ensures
            r == old(self).entries().contains_key(path@),
            final(self).entries() == old(self).entries().remove(path@),
    {
        let gone = trie_remove(&mut self.file_system, path);
        match gone {
            Some(_) => true,
            None => false,
        }
    }

    /// Starts an upload at `path`: a fresh live record with no chunks takes
    /// the place of any earlier one, and its handle comes back for the
    /// uploader to append to. The record carries the declared content type,
    /// or the generic binary one when none was declared, and its live feed
    /// has room for `FEED_CAPACITY` chunks.
    pub fn receive_resource(&mut self, path: String, content_type: Option<String>) -> (r: Handle)
        ensures
            final(self).entries() == old(self).entries().insert(path@, r),
            made_with(r).wf(),
            made_with(r).is_live(),
            made_with(r).chunks() == Seq::<Seq<u8>>::empty(),
            made_with(r).feed() == Seq::<Seq<u8>>::empty(),
            made_with(r).feed_capacity() == FEED_CAPACITY,
            content_type is Some ==> made_with(r).content_type_view() == content_type->Some_0@,
            content_type is None ==> made_with(r).content_type_view() == DEFAULT_CONTENT_TYPE@,
    {
        let record = IndividualVideo::new(content_type);
        let handle = new_handle(record);
        let stored = handle.clone();
        self.insert(path, stored);
        handle
    }

    /// The handle a download of `path` reads from.
    pub fn get_resource(&self, path: &String) -> (r: Result<Handle, StoreError>)
        ensures
            self.entries().contains_key(path@) ==> r == Ok::<Handle, StoreError>(self.entries()[path@]),
            !self.entries().contains_key(path@) ==> r == Err::<Handle, StoreError>(StoreError::NotFound),
    {
        match self.lookup(path) {
            Some(h) => Ok(h),
            None => Err(StoreError::NotFound),
        }
    }

    /// Removes `path` from the namespace, or reports that it was absent.
    pub fn delete_resource(&mut self, path: &String) -> (r: Result<(), StoreError>)
        ensures
            final(self).entries() == old(self).entries().remove(path@),
            old(self).entries().contains_key(path@) <==> r is Ok,
            r is Err ==> r == Err::<(), StoreError>(StoreError::NotFound),
    {
        if self.remove(path) {
            Ok(())
        } else {
            Err(StoreError::NotFound)
        }
    }

    /// The entries under `prefix` for the listing verb. Another verb is not
    /// allowed; an empty listing is reported as not found.
    pub fn get_list(&self, method: &str, prefix: &str) -> (r: Result<Vec<Entry>, StoreError>)
        ensures
            method@ != seq!['L', 'I', 'S', 'T'] ==> r == Err::<Vec<Entry>, StoreError>(
                StoreError::MethodNotAllowed,
            ),
            method@ == seq!['L', 'I', 'S', 'T'] ==> ((exists|k: Seq<char>| #[trigger]
                is_under(self.entries(), prefix@, k)) <==> r is Ok),
            method@ == seq!['L', 'I', 'S', 'T'] && r is Err ==> r == Err::<Vec<Entry>, StoreError>(
                StoreError::NotFound,
            ),
            r is Ok ==> forall|i: int|
                0 <= i < r->Ok_0@.len() ==> #[trigger] is_under(self.entries(), prefix@, r->Ok_0@[i].0@)
                    && self.entries()[r->Ok_0@[i].0@] == r->Ok_0@[i].1,
            r is Ok ==> forall|i: int, j: int|
                0 <= i < j < r->Ok_0@.len() ==> r->Ok_0@[i].0@ != r->Ok_0@[j].0@,
            r is Ok ==> forall|k: Seq<char>| #[trigger]
                is_under(self.entries(), prefix@, k) ==> exists|i: int|
                    0 <= i < r->Ok_0@.len() && r->Ok_0@[i].0@ == k,
    {
        if !is_list_verb(method) {
            return Err(StoreError::MethodNotAllowed);
        }
        let found = self.lookup_subtree(prefix);
        if found.len() == 0 {
            assert forall|k: Seq<char>| !is_under(self.entries(), prefix@, k) by {
                if is_under(self.entries(), prefix@, k) {
                    assert(self.entries().contains_key(k));
                }
            }
            Err(StoreError::NotFound)
        } else {
            assert(self.entries().contains_key(found@[0].0@));
            assert(is_under(self.entries(), prefix@, found@[0].0@));
            assert forall|i: int| 0 <= i < found@.len() implies #[trigger] is_under(
                self.entries(),
                prefix@,
                found@[i].0@,
            ) && self.entries()[found@[i].0@] == found@[i].1 by {
                assert(self.entries().contains_key(found@[i].0@));
            }
            assert forall|k: Seq<char>| #[trigger]
                is_under(self.entries(), prefix@, k) implies exists|i: int|
                0 <= i < found@.len() && found@[i].0@ == k by {
                assert(self.entries().contains_key(k));
            }
            let ghost fv = found@;
            let r: Result<Vec<Entry>, StoreError> = Ok(found);
            assert(r->Ok_0@ == fv);
            r
        }
    }
}

/// Overwrite replaces: after two uploads to `path`, a lookup there finds the
/// second record's handle and nothing of the first, and every other path is
/// as it was before either upload. The first record itself is not touched:
/// readers that hold its handle go on reading it.
pub proof fn lemma_overwrite_replaces(
    s0: AppState,
    s1: AppState,
    s2: AppState,
    path: Seq<char>,
    first: Handle,
    second: Handle,
)
    requires
        s1.entries() == s0.entries().insert(path, first),
        s2.entries() == s1.entries().insert(path, second),
    ensures
        s2.entries().contains_key(path),
        s2.entries()[path] == second,
        s2.entries() == s0.entries().insert(path, second),
        s2.entries().remove(path) == s0.entries().remove(path),
{
    assert(s2.entries() =~= s0.entries().insert(path, second));
    assert(s2.entries().remove(path) =~= s0.entries().remove(path));
}

/// Removal does not disturb a delivery: when `path` is removed from the
/// namespace while a reader follows the record it captured there, the path
/// is gone for new lookups, every other path keeps its handle, and the
/// reader still receives exactly the record's chunks in order, since what it
/// receives depends on the record alone.
pub proof fn lemma_remove_mid_delivery(
    before: AppState,
    after: AppState,
    path: Seq<char>,
    at_capture: IndividualVideo,
    now: IndividualVideo,
)
    requires
        after.entries() == before.entries().remove(path),
        at_capture.wf(),
        now.wf(),
        at_capture.is_live(),
        now.is_live(),
        at_capture.chunks().is_prefix_of(now.chunks()),
        now.feed_kept_since(at_capture),
    ensures
        !after.entries().contains_key(path),
        forall|k: Seq<char>|
            k != path ==> (#[trigger] after.entries().contains_key(k) == before.entries().contains_key(k)
                && (after.entries().contains_key(k) ==> after.entries()[k] == before.entries()[k])),
        at_capture.chunks() + now.feed().subrange(at_capture.feed().len() as int, now.feed().len() as int)
            == now.chunks(),
{
    lemma_exact_once(at_capture, now);
}

} // verus!
