//! The per-document diagnostic cache of a session, kept in a concurrent map.

use crate::report::{reports_view, DiagnosticReport, ReportView};
use dashmap::DashMap;
use vstd::prelude::*;

verus! {

/// What a session remembers of one document: the reports of its last lint,
/// and the content version they were computed for, where one was given.
#[derive(Debug, PartialEq, Eq)]
pub struct CacheEntry {
    pub version: Option<i32>,
    pub reports: Vec<DiagnosticReport>,
}

/// What a [`CacheEntry`] is.
pub ghost struct EntryView {
    pub version: Option<i32>,
    pub reports: Seq<ReportView>,
}

impl View for CacheEntry {
    type V = EntryView;

    open spec fn view(&self) -> EntryView {
        EntryView { version: self.version, reports: reports_view(self.reports@) }
    }
}

impl Clone for CacheEntry {
    fn clone(&self) -> (copy: CacheEntry)
        ensures
            copy@ == self@,
    {
        let mut reports: Vec<DiagnosticReport> = Vec::new();
        let mut i: usize = 0;
        while i < self.reports.len()
            invariant
                i <= self.reports.len(),
                reports.len() == i,
                forall|j: int| 0 <= j < i ==> reports@[j]@ == self.reports@[j]@,
            decreases self.reports.len() - i,
        {
            reports.push(self.reports[i].clone());
            i += 1;
        }
        assert(reports_view(reports@) =~= reports_view(self.reports@));
        CacheEntry { version: self.version, reports }
    }
}

/// `dashmap::DashMap`, a hash map that can be shared between threads.
#[verifier::external_type_specification]
#[verifier::external_body]
#[verifier::reject_recursive_types(K)]
#[verifier::reject_recursive_types(V)]
#[verifier::reject_recursive_types(S)]
pub struct ExDashMap<K, V, S>(DashMap<K, V, S>);

/// What a cache is: each document identity that has an entry, with that
/// entry.
pub type CacheView = Map<Seq<char>, EntryView>;

/// The entries that a cache holds.
pub uninterp spec fn cache_entries(cache: DashMap<String, CacheEntry>) -> CacheView;

/// `DashMap::new`: a map without entries.
#[verifier::external_body]
pub(crate) fn cache_new() -> (cache: DashMap<String, CacheEntry>)
    ensures
        cache_entries(cache) == CacheView::empty(),
{
    DashMap::new()
}

/// `DashMap::insert`: afterwards the map holds `entry` under `key`, in place
/// of what it held under that key before, and every other entry as before.
/// The method itself takes a shared reference; the exclusive one here lets
/// the entries of a map change only where its owner changes it.
#[verifier::external_body]
pub(crate) fn cache_insert(cache: &mut DashMap<String, CacheEntry>, key: String, entry: CacheEntry)
    ensures
        cache_entries(*final(cache)) == cache_entries(*old(cache)).insert(key@, entry@),
{
    cache.insert(key, entry);
}

/// `DashMap::remove`: afterwards the map holds nothing under `key`, and every
/// other entry as before. As with `insert`, the exclusive reference is this
/// library's.
#[verifier::external_body]
pub(crate) fn cache_remove(cache: &mut DashMap<String, CacheEntry>, key: &str)
    ensures
        cache_entries(*final(cache)) == cache_entries(*old(cache)).remove(key@),
{
    cache.remove(key);
}

/// `DashMap::view`, which looks `key` up and applies a function to what it
/// finds: a copy of the entry under `key`, if the map holds one.
#[verifier::external_body]
pub(crate) fn cache_get(cache: &DashMap<String, CacheEntry>, key: &str) -> (entry: Option<
    CacheEntry,
>)
    ensures
        match entry {
            Some(found) => cache_entries(*cache).contains_key(key@) && found@ == cache_entries(
                *cache,
            )[key@],
            None => !cache_entries(*cache).contains_key(key@),
        },
{
    cache.view(key, |_, found| found.clone())
}

/// `DashMap::iter`: the keys of the map, each once, in the order in which
/// the map happens to be walked.
#[verifier::external_body]
pub(crate) fn cache_keys(cache: &DashMap<String, CacheEntry>) -> (keys: Vec<String>)
    ensures
        keys@.map_values(|k: String| k@).no_duplicates(),
        keys@.map_values(|k: String| k@).to_set() == cache_entries(*cache).dom(),
{
    cache.iter().map(|found| found.key().clone()).collect()
}

} // verus!
