use vstd::prelude::*;

use crate::package::PackageName;
use crate::version::{Version, VersionParts};

verus! {

/// Where a cached package came from: registry URL, package name and the
/// release's version (never a "latest" marker).
#[derive(Debug, Clone, PartialEq, Eq)]
pub struct CacheKey {
    pub registry: String,
    pub package: PackageName,
    pub version: Version,
}

pub type CacheKeyView = (Seq<char>, (Seq<char>, Seq<char>), VersionParts);

impl View for CacheKey {
    type V = CacheKeyView;

    open spec fn view(&self) -> CacheKeyView {
        (self.registry@, self.package@, self.version@)
    }
}

/// Cached content of a release, with when it was fetched.
#[derive(Debug, Clone, PartialEq, Eq)]
pub struct CacheEntry {
    pub content: Vec<u8>,
    pub fetched_at: u64,
    pub version: Version,
}

pub type CacheEntryView = (Seq<u8>, u64, VersionParts);

impl View for CacheEntry {
    type V = CacheEntryView;

    open spec fn view(&self) -> CacheEntryView {
        (self.content@, self.fetched_at, self.version@)
    }
}

/// The entry that the last store for `key` left, if any.
pub open spec fn latest_entry(entries: Seq<(CacheKeyView, CacheEntryView)>, key: CacheKeyView) -> Option<CacheEntryView>
    decreases entries.len(),
{
    if entries.len() == 0 {
        None
    } else if entries.last().0 == key {
        Some(entries.last().1)
    } else {
        latest_entry(entries.drop_last(), key)
    }
}

impl CacheKey {
    /// Whether two keys name the same release of the same package on the same registry.
    pub fn same_key(&self, other: &CacheKey) -> (r: bool)
        ensures
            r == (self@ == other@),
    {
        self.registry == other.registry && self.package.same_name(&other.package)
            && self.version.same_release(&other.version)
    }
}

/// A copy of some bytes.
pub fn copy_bytes(bytes: &Vec<u8>) -> (r: Vec<u8>)
    ensures
        r@ == bytes@,
{
    let r = bytes.clone();
    assert(r@ =~= bytes@);
    r
}

/// Fetched packages kept across downloads. Entries are only ever added: a later
/// entry for a key supersedes the earlier ones, so a store replaces what a
/// lookup of that key sees in one step, and no entry is ever seen half-written.
pub struct PackageCache {
    pub entries: Vec<(CacheKey, CacheEntry)>,
}

impl View for PackageCache {
    type V = Seq<(CacheKeyView, CacheEntryView)>;

    open spec fn view(&self) -> Seq<(CacheKeyView, CacheEntryView)> {
        self.entries@.map_values(|e: (CacheKey, CacheEntry)| (e.0@, e.1@))
    }
}

impl PackageCache {
    /// An empty cache.
    pub fn new() -> (r: PackageCache)
        ensures
            r@ == Seq::<(CacheKeyView, CacheEntryView)>::empty(),
    {
        let r = PackageCache { entries: Vec::new() };
        assert(r@ =~= Seq::<(CacheKeyView, CacheEntryView)>::empty());
        r
    }

    /// The entry stored last for `key`, if any; touches no network.
    pub fn lookup(&self, key: &CacheKey) -> (r: Option<&CacheEntry>)
        ensures
            match r {
                Some(e) => latest_entry(self@, key@) == Some(e@),
                None => latest_entry(self@, key@).is_none(),
            },
    {
        let ghost all = self@;
        let mut i: usize = self.entries.len();
        assert(all.subrange(0, all.len() as int) =~= all);
        while i > 0
            invariant
                all == self@,
                all.len() == self.entries@.len(),
                0 <= i <= self.entries.len(),
                latest_entry(all.subrange(0, i as int), key@) == latest_entry(all, key@),
            decreases i,
        {
            let entry = &self.entries[i - 1];
            let ghost prefix = all.subrange(0, i as int);
            assert(prefix.last() == all[i - 1]);
            if entry.0.same_key(key) {
                return Some(&entry.1);
            }
            assert(prefix.drop_last() =~= all.subrange(0, i - 1));
            i = i - 1;
        }
        None
    }

    /// Keeps `content` as the entry for `key`, superseding any earlier one.
    pub fn store(&mut self, key: CacheKey, content: Vec<u8>, fetched_at: u64)
        ensures
            final(self)@ == old(self)@.push(
                (key@, (content@, fetched_at, key.version@)),
            ),
            latest_entry(final(self)@, key@) == Some((content@, fetched_at, key.version@)),
    {
        let version = key.version.copied();
        let entry = CacheEntry { content, fetched_at, version };
        self.entries.push((key, entry));
        assert(self@ =~= old(self)@.push((key@, entry@)));
        assert(self@.drop_last() =~= old(self)@);
    }
}

} // verus!
