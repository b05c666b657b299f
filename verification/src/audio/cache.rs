//! The audio cache on disk and how it is kept below its limit.
//!
//! A cached track is one file, `{hash}-{quality}.{ext}`. A file that is still
//! being written ends in `.part`: it is no cached track, so neither a lookup nor
//! a cleanup sees it.

use vstd::prelude::*;
use crate::text::{
    bare_path, bare_text, cat3, ends_in, ends_with, file_name, file_name_len, join, joined, same,
};

verus! {

/// How many kinds of audio files are known.
pub const KNOWN_EXTENSIONS: usize = 8;

/// The most files that one cleanup removes.
pub const MAX_EVICTIONS_PER_RUN: usize = 512;

/// The ending of a file that is still being written.
pub const PARTIAL_ENDING: &'static str = ".part";

/// The known kinds of audio files, in the order in which a lookup tries them.
pub open spec fn extension(i: int) -> Seq<char> {
    if i == 0 {
        "mp3"@
    } else if i == 1 {
        "flac"@
    } else if i == 2 {
        "m4a"@
    } else if i == 3 {
        "aac"@
    } else if i == 4 {
        "ogg"@
    } else if i == 5 {
        "wav"@
    } else if i == 6 {
        "ape"@
    } else {
        "mp4"@
    }
}

fn known_extension(i: usize) -> (r: &'static str)
    ensures
        r@ == extension(i as int),
{
    if i == 0 {
        "mp3"
    } else if i == 1 {
        "flac"
    } else if i == 2 {
        "m4a"
    } else if i == 3 {
        "aac"
    } else if i == 4 {
        "ogg"
    } else if i == 5 {
        "wav"
    } else if i == 6 {
        "ape"
    } else {
        "mp4"
    }
}

/// What one cleanup removed.
#[derive(Debug, Clone, Copy, Default, PartialEq, Eq)]
pub struct EvictionReport {
    pub removed_files: usize,
    pub freed_bytes: u64,
}

/// What emptying the cache removed.
#[derive(Debug, Clone, Copy, Default, PartialEq, Eq)]
pub struct ClearReport {
    pub removed_files: usize,
    pub freed_bytes: u64,
    /// How many files could not be removed.
    pub failed: usize,
}

/// One item of the cache directory as the system lists it.
#[derive(Debug)]
pub struct DirItem {
    pub path: String,
    /// Its kind and size; `None` where they could not be read.
    pub metadata: Option<ItemMetadata>,
}

#[derive(Debug, Clone, Copy)]
pub struct ItemMetadata {
    pub is_file: bool,
    pub size_bytes: u64,
    /// When it was last written, in nanoseconds since the epoch, where known.
    pub modified: Option<i128>,
}

/// A cached file.
#[derive(Debug)]
pub struct CacheEntry {
    pub path: String,
    pub size_bytes: u64,
    pub modified: i128,
}

impl Clone for CacheEntry {
    fn clone(&self) -> (r: Self)
        ensures
            r == *self,
    {
        CacheEntry { path: self.path.clone(), size_bytes: self.size_bytes, modified: self.modified }
    }
}

/// Whether a path names a file that is still being written: a name with more
/// before its ending than nothing. Separators at the end of the path do not count.
pub open spec fn partial(path: Seq<char>) -> bool {
    let bare = bare_path(path);
    ends_in(bare, PARTIAL_ENDING@) && file_name(bare).len() > PARTIAL_ENDING@.len()
}

/// Whether a path names a file that is still being written.
pub fn is_partial(path: &str) -> (r: bool)
    ensures
        r == partial(path@),
{
    proof {
        reveal_strlit(".part");
    }
    let bare = bare_text(path);
    ends_with(bare.as_str(), PARTIAL_ENDING) && file_name_len(bare.as_str()) > 5
}

/// Whether a path names something that a file can be: its last part is there
/// and is not one of the two directory names. Separators at the end of the path do
/// not count.
pub open spec fn names_a_file(path: Seq<char>) -> bool {
    let name = file_name(bare_path(path));
    name.len() > 0 && name != "."@ && name != ".."@
}

/// Where the cached files with these sizes come to.
pub open spec fn total_size(entries: Seq<CacheEntry>) -> nat
    decreases entries.len(),
{
    if entries.len() == 0 {
        0
    } else {
        total_size(entries.drop_last()) + entries.last().size_bytes as nat
    }
}

/// The cached file that a directory item is, where it is one.
pub open spec fn as_entry(item: DirItem) -> Option<CacheEntry> {
    if partial(item.path@) {
        None
    } else {
        match item.metadata {
            Some(metadata) => if metadata.is_file {
                Some(
                    CacheEntry {
                        path: item.path,
                        size_bytes: metadata.size_bytes,
                        modified: match metadata.modified {
                            Some(at) => at,
                            None => 0,
                        },
                    },
                )
            } else {
                None
            },
            None => None,
        }
    }
}

/// The cached files among directory items, in the order listed.
pub open spec fn entries_of(items: Seq<DirItem>) -> Seq<CacheEntry>
    decreases items.len(),
{
    if items.len() == 0 {
        Seq::empty()
    } else {
        match as_entry(items.last()) {
            Some(entry) => entries_of(items.drop_last()).push(entry),
            None => entries_of(items.drop_last()),
        }
    }
}

/// `sorted` with `entry` put in behind all that are not newer.
pub open spec fn put_in(sorted: Seq<CacheEntry>, entry: CacheEntry) -> Seq<CacheEntry>
    decreases sorted.len(),
{
    if sorted.len() == 0 || sorted.last().modified <= entry.modified {
        sorted.push(entry)
    } else {
        put_in(sorted.drop_last(), entry).push(sorted.last())
    }
}

/// The entries from the oldest to the newest; those of one age keep their order.
pub open spec fn oldest_first(entries: Seq<CacheEntry>) -> Seq<CacheEntry>
    decreases entries.len(),
{
    if entries.len() == 0 {
        Seq::empty()
    } else {
        put_in(oldest_first(entries.drop_last()), entries.last())
    }
}

/// The mark to which a cleanup goes down: four fifths of the limit.
pub open spec fn eviction_mark(limit: nat) -> nat {
    limit * 4 / 5
}

/// What a cache is.
pub struct CacheView {
    pub root: Seq<char>,
    /// The limit in bytes; `0` means none.
    pub limit: u64,
}

impl CacheView {
    pub open spec fn of(root: Seq<char>, limit_mib: u64) -> CacheView {
        CacheView {
            root,
            limit: if limit_mib * 0x10_0000 > u64::MAX {
                u64::MAX
            } else {
                (limit_mib * 0x10_0000) as u64
            },
        }
    }

    /// Where the file of `key` with this ending stands.
    pub open spec fn path(self, key: Seq<char>, ext: Seq<char>) -> Seq<char> {
        joined(self.root, key + "."@ + ext)
    }

    /// The place that a lookup of `key` tries as its `i`-th.
    pub open spec fn candidate(self, key: Seq<char>, i: int) -> Seq<char> {
        self.path(key, extension(i))
    }

    /// Whether a cleanup has anything to do.
    pub open spec fn over_limit(self, entries: Seq<CacheEntry>) -> bool {
        self.limit > 0 && total_size(entries) > self.limit
    }
}

/// Whether a path is among the listed files.
pub open spec fn listed(files: Seq<String>, path: Seq<char>) -> bool {
    exists|k: int| 0 <= k < files.len() && #[trigger] files[k]@ == path
}

fn is_listed(files: &Vec<String>, path: &str) -> (r: bool)
    ensures
        r == listed(files@, path@),
{
    let mut k: usize = 0;
    while k < files.len()
        invariant
            k <= files@.len(),
            forall|j: int| 0 <= j < k ==> #[trigger] files@[j]@ != path@,
        decreases files@.len() - k,
    {
        if same(files[k].as_str(), path) {
            return true;
        }
        k = k + 1;
    }
    false
}

/// The audio cache: a directory and a limit.
#[derive(Debug)]
pub struct AudioCache {
    root: String,
    limit_bytes: u64,
}

impl View for AudioCache {
    type V = CacheView;

    closed spec fn view(&self) -> CacheView {
        CacheView { root: self.root@, limit: self.limit_bytes }
    }
}

impl AudioCache {
    /// A cache in `root` with a limit in MiB; `0` means no limit.
    pub fn new(root: String, limit_mib: u64) -> (c: Self)
        ensures
            c@ == CacheView::of(root@, limit_mib),
    {
        let limit_bytes: u64 = match limit_mib.checked_mul(0x10_0000) {
            Some(bytes) => bytes,
            None => u64::MAX,
        };
        AudioCache { root, limit_bytes }
    }

    pub fn root(&self) -> (r: &str)
        ensures
            r@ == self@.root,
    {
        self.root.as_str()
    }

    /// Where the file of `key` with this ending stands.
    pub fn path_for(&self, key: &str, extension: &str) -> (r: String)
        ensures
            r@ == self@.path(key@, extension@),
    {
        let name = cat3(key, ".", extension);
        join(self.root.as_str(), name.as_str())
    }

    /// Looks up the cached file of `key` among the files that are there: the
    /// first known ending, in their fixed order, under which there is one.
    pub fn find(&self, key: &str, files: &Vec<String>) -> (r: Option<String>)
        ensures
            match r {
                Some(path) => exists|i: int|
                    {
                        &&& 0 <= i < KNOWN_EXTENSIONS
                        &&& path@ == #[trigger] self@.candidate(key@, i)
                        &&& listed(files@, path@)
                        &&& forall|j: int|
                            0 <= j < i ==> !listed(files@, #[trigger] self@.candidate(key@, j))
                    },
                None => forall|i: int|
                    0 <= i < KNOWN_EXTENSIONS ==> !listed(
                        files@,
                        #[trigger] self@.candidate(key@, i),
                    ),
            },
    {
        let mut i: usize = 0;
        while i < KNOWN_EXTENSIONS
            invariant
                i <= KNOWN_EXTENSIONS,
                forall|j: int|
                    0 <= j < i ==> !listed(files@, #[trigger] self@.candidate(key@, j)),
            decreases KNOWN_EXTENSIONS - i,
        {
            let path = self.path_for(key, known_extension(i));
            assert(path@ == self@.candidate(key@, i as int));
            if is_listed(files, path.as_str()) {
                return Some(path);
            }
            i = i + 1;
        }
        None
    }

    /// The cached files among what the directory holds.
    pub fn entries(&self, items: &Vec<DirItem>) -> (r: Vec<CacheEntry>)
        ensures
            r@ == entries_of(items@),
    {
        let mut out: Vec<CacheEntry> = Vec::new();
        let mut i: usize = 0;
        while i < items.len()
            invariant
                i <= items@.len(),
                out@ == entries_of(items@.take(i as int)),
            decreases items@.len() - i,
        {
            let item = &items[i];
            assert(items@.take(i + 1).drop_last() =~= items@.take(i as int));
            if !is_partial(item.path.as_str()) {
                match item.metadata {
                    Some(metadata) => {
                        if metadata.is_file {
                            let modified: i128 = match metadata.modified {
                                Some(at) => at,
                                None => 0,
                            };
                            out.push(
                                CacheEntry {
                                    path: item.path.clone(),
                                    size_bytes: metadata.size_bytes,
                                    modified,
                                },
                            );
                        }
                    },
                    None => {},
                }
            }
            i = i + 1;
        }
        assert(items@.take(i as int) =~= items@);
        out
    }

    /// How many bytes the cached files take.
    pub fn total_bytes(&self, entries: &Vec<CacheEntry>) -> (n: u64)
        requires
            total_size(entries@) <= u64::MAX,
        ensures
            n == total_size(entries@),
    {
        let mut sum: u64 = 0;
        let mut i: usize = 0;
        while i < entries.len()
            invariant
                i <= entries@.len(),
                total_size(entries@) <= u64::MAX,
                sum == total_size(entries@.take(i as int)),
            decreases entries@.len() - i,
        {
            proof {
                lemma_part_of_total(entries@, i + 1);
                assert(entries@.take(i + 1).drop_last() =~= entries@.take(i as int));
            }
            sum = sum + entries[i].size_bytes;
            i = i + 1;
        }
        assert(entries@.take(i as int) =~= entries@);
        sum
    }

    /// Plans a cleanup of the cached files: nothing without a limit or below it,
    /// else the oldest files first, down to four fifths of the limit.
    pub fn enforce_limit(&self, entries: Vec<CacheEntry>) -> (r: Eviction)
        requires
            total_size(entries@) <= u64::MAX,
        ensures
            r.wf(),
            r@ == EvictionView::begin(self@, entries@),
    {
        let total: u64 = self.total_bytes(&entries);
        let report = EvictionReport { removed_files: 0, freed_bytes: 0 };
        if self.limit_bytes == 0 || total <= self.limit_bytes {
            let none: Vec<CacheEntry> = Vec::new();
            assert(none@ =~= Seq::<CacheEntry>::empty());
            return Eviction { entries: none, next: 0, remaining: total, target: 0, report };
        }
        let target: u64 = (self.limit_bytes as u128 * 4 / 5) as u64;
        let sorted = sort_oldest_first(&entries);
        proof {
            lemma_oldest_first_total(entries@);
            assert(sorted@.skip(0) =~= sorted@);
        }
        Eviction { entries: sorted, next: 0, remaining: total, target, report }
    }

    /// Starts emptying the cache: every cached file is to be removed.
    pub fn clear(&self, entries: Vec<CacheEntry>) -> (r: Clearing)
        requires
            total_size(entries@) <= u64::MAX,
        ensures
            r.wf(),
            r@ == ClearingView::begin(entries@),
    {
        assert(entries@.skip(0) =~= entries@);
        Clearing {
            entries,
            next: 0,
            report: ClearReport { removed_files: 0, freed_bytes: 0, failed: 0 },
        }
    }
}

impl Clone for AudioCache {
    fn clone(&self) -> (r: Self)
        ensures
            r == *self,
    {
        AudioCache { root: self.root.clone(), limit_bytes: self.limit_bytes }
    }
}

proof fn lemma_part_of_total(entries: Seq<CacheEntry>, i: int)
    requires
        0 <= i <= entries.len(),
    ensures
        total_size(entries.take(i)) <= total_size(entries),
    decreases entries.len() - i,
{
    if i < entries.len() {
        lemma_part_of_total(entries, i + 1);
        assert(entries.take(i + 1).drop_last() =~= entries.take(i));
    } else {
        assert(entries.take(i) =~= entries);
    }
}

proof fn lemma_put_in_total(sorted: Seq<CacheEntry>, entry: CacheEntry)
    ensures
        total_size(put_in(sorted, entry)) == total_size(sorted) + entry.size_bytes,
        put_in(sorted, entry).len() == sorted.len() + 1,
    decreases sorted.len(),
{
    if sorted.len() == 0 || sorted.last().modified <= entry.modified {
        assert(sorted.push(entry).drop_last() =~= sorted);
    } else {
        lemma_put_in_total(sorted.drop_last(), entry);
        let rest = put_in(sorted.drop_last(), entry);
        assert(rest.push(sorted.last()).drop_last() =~= rest);
    }
}

proof fn lemma_oldest_first_total(entries: Seq<CacheEntry>)
    ensures
        total_size(oldest_first(entries)) == total_size(entries),
        oldest_first(entries).len() == entries.len(),
    decreases entries.len(),
{
    if entries.len() > 0 {
        lemma_oldest_first_total(entries.drop_last());
        lemma_put_in_total(oldest_first(entries.drop_last()), entries.last());
    }
}

proof fn lemma_rest_of_total(entries: Seq<CacheEntry>, i: int)
    requires
        0 <= i < entries.len(),
    ensures
        total_size(entries.skip(i)) == entries[i].size_bytes + total_size(entries.skip(i + 1)),
    decreases entries.len() - i,
{
    if i + 1 < entries.len() {
        let shorter = entries.drop_last();
        lemma_rest_of_total(shorter, i);
        assert(entries.skip(i).drop_last() =~= shorter.skip(i));
        assert(entries.skip(i + 1).drop_last() =~= shorter.skip(i + 1));
    } else {
        assert(entries.skip(i).drop_last() =~= Seq::<CacheEntry>::empty());
        assert(entries.skip(i + 1) =~= Seq::<CacheEntry>::empty());
    }
}

/// The position at which [`put_in`] puts an entry.
proof fn lemma_put_in_at(sorted: Seq<CacheEntry>, entry: CacheEntry, at: int)
    requires
        0 <= at <= sorted.len(),
        at > 0 ==> sorted[at - 1].modified <= entry.modified,
        forall|j: int| at <= j < sorted.len() ==> sorted[j].modified > entry.modified,
    ensures
        put_in(sorted, entry) == sorted.insert(at, entry),
    decreases sorted.len(),
{
    if at == sorted.len() {
        assert(sorted.insert(at, entry) =~= sorted.push(entry));
    } else {
        lemma_put_in_at(sorted.drop_last(), entry, at);
        assert(sorted.insert(at, entry) =~= sorted.drop_last().insert(at, entry).push(
            sorted.last(),
        ));
    }
}

fn sort_oldest_first(entries: &Vec<CacheEntry>) -> (r: Vec<CacheEntry>)
    ensures
        r@ == oldest_first(entries@),
{
    let mut out: Vec<CacheEntry> = Vec::new();
    let mut i: usize = 0;
    while i < entries.len()
        invariant
            i <= entries@.len(),
            out@ == oldest_first(entries@.take(i as int)),
        decreases entries@.len() - i,
    {
        let entry = entries[i].clone();
        assert(entries@.take(i + 1).drop_last() =~= entries@.take(i as int));
        let mut at: usize = out.len();
        while at > 0 && out[at - 1].modified > entry.modified
            invariant
                at <= out@.len(),
                forall|j: int| at <= j < out@.len() ==> out@[j].modified > entry.modified,
            decreases at,
        {
            at = at - 1;
        }
        proof {
            lemma_put_in_at(out@, entry, at as int);
        }
        out.insert(at, entry);
        i = i + 1;
    }
    assert(entries@.take(i as int) =~= entries@);
    out
}

/// What became of one attempt to remove a file.
#[derive(Debug, Clone, Copy, PartialEq, Eq, Structural)]
pub enum Removal {
    Removed,
    /// Something else had removed it before.
    Missing,
    Failed,
}

/// What a cleanup is.
pub struct EvictionView {
    /// The files, oldest first.
    pub entries: Seq<CacheEntry>,
    /// How many of them were dealt with.
    pub next: nat,
    /// How many bytes the cache still takes.
    pub remaining: nat,
    /// The mark to go down to.
    pub target: nat,
    pub report: EvictionReport,
}

impl EvictionView {
    pub open spec fn begin(cache: CacheView, entries: Seq<CacheEntry>) -> EvictionView {
        let over = cache.over_limit(entries);
        EvictionView {
            entries: if over {
                oldest_first(entries)
            } else {
                Seq::empty()
            },
            next: 0,
            remaining: total_size(entries),
            target: if over {
                eviction_mark(cache.limit as nat)
            } else {
                0
            },
            report: EvictionReport { removed_files: 0, freed_bytes: 0 },
        }
    }

    /// Whether the cleanup goes on with the file at `next`.
    pub open spec fn goes_on(self) -> bool {
        &&& self.next < self.entries.len()
        &&& self.remaining > self.target
        &&& self.report.removed_files < MAX_EVICTIONS_PER_RUN
    }

    pub open spec fn after(self, outcome: Removal) -> EvictionView {
        let size = self.entries[self.next as int].size_bytes;
        let left = if self.remaining >= size {
            (self.remaining - size) as nat
        } else {
            0
        };
        match outcome {
            Removal::Removed => EvictionView {
                next: self.next + 1,
                remaining: left,
                report: EvictionReport {
                    removed_files: (self.report.removed_files + 1) as usize,
                    freed_bytes: (self.report.freed_bytes + size) as u64,
                },
                ..self
            },
            Removal::Missing => EvictionView { next: self.next + 1, remaining: left, ..self },
            Removal::Failed => EvictionView { next: self.next + 1, ..self },
        }
    }
}

/// A cleanup under way: which file goes next, and what was removed.
#[derive(Debug)]
pub struct Eviction {
    entries: Vec<CacheEntry>,
    next: usize,
    remaining: u64,
    target: u64,
    report: EvictionReport,
}

impl View for Eviction {
    type V = EvictionView;

    closed spec fn view(&self) -> EvictionView {
        EvictionView {
            entries: self.entries@,
            next: self.next as nat,
            remaining: self.remaining as nat,
            target: self.target as nat,
            report: self.report,
        }
    }
}

impl Eviction {
    pub closed spec fn wf(&self) -> bool {
        &&& self.next <= self.entries@.len()
        &&& self.report.removed_files <= self.next
        &&& self.report.freed_bytes + total_size(self.entries@.skip(self.next as int)) <= u64::MAX
    }

    /// The file to remove next; `None` when the cleanup is over.
    pub fn victim(&self) -> (r: Option<&CacheEntry>)
        requires
            self.wf(),
        ensures
            match r {
                Some(entry) => self@.goes_on() && *entry == self@.entries[self@.next as int],
                None => !self@.goes_on(),
            },
    {
        if self.next < self.entries.len() && self.remaining > self.target
            && self.report.removed_files < MAX_EVICTIONS_PER_RUN {
            Some(&self.entries[self.next])
        } else {
            None
        }
    }

    /// Takes what became of the attempt to remove that file.
    pub fn removed(&mut self, outcome: Removal)
        requires
            old(self).wf(),
            old(self)@.goes_on(),
        ensures
            final(self).wf(),
            final(self)@ == old(self)@.after(outcome),
    {
        let count: usize = self.entries.len();
        assert(self.next < count);
        proof {
            lemma_rest_of_total(self.entries@, self.next as int);
        }
        let size: u64 = self.entries[self.next].size_bytes;
        let left: u64 = if self.remaining >= size {
            self.remaining - size
        } else {
            0
        };
        match outcome {
            Removal::Removed => {
                self.remaining = left;
                self.report = EvictionReport {
                    removed_files: self.report.removed_files + 1,
                    freed_bytes: self.report.freed_bytes + size,
                };
            },
            Removal::Missing => {
                self.remaining = left;
            },
            Removal::Failed => {},
        }
        self.next = self.next + 1;
    }

    pub fn report(&self) -> (r: EvictionReport)
        ensures
            r == self@.report,
    {
        self.report
    }
}

/// What emptying the cache is.
pub struct ClearingView {
    pub entries: Seq<CacheEntry>,
    pub next: nat,
    pub report: ClearReport,
}

impl ClearingView {
    pub open spec fn begin(entries: Seq<CacheEntry>) -> ClearingView {
        ClearingView {
            entries,
            next: 0,
            report: ClearReport { removed_files: 0, freed_bytes: 0, failed: 0 },
        }
    }

    pub open spec fn after(self, removed: bool) -> ClearingView {
        let size = self.entries[self.next as int].size_bytes;
        ClearingView {
            next: self.next + 1,
            report: if removed {
                ClearReport {
                    removed_files: (self.report.removed_files + 1) as usize,
                    freed_bytes: (self.report.freed_bytes + size) as u64,
                    failed: self.report.failed,
                }
            } else {
                ClearReport { failed: (self.report.failed + 1) as usize, ..self.report }
            },
            ..self
        }
    }
}

/// Emptying the cache, file by file; a file that cannot be removed does not stop
/// it.
#[derive(Debug)]
pub struct Clearing {
    entries: Vec<CacheEntry>,
    next: usize,
    report: ClearReport,
}

impl View for Clearing {
    type V = ClearingView;

    closed spec fn view(&self) -> ClearingView {
        ClearingView { entries: self.entries@, next: self.next as nat, report: self.report }
    }
}

impl Clearing {
    pub closed spec fn wf(&self) -> bool {
        &&& self.next <= self.entries@.len()
        &&& self.report.removed_files + self.report.failed == self.next
        &&& self.report.freed_bytes + total_size(self.entries@.skip(self.next as int)) <= u64::MAX
    }

    /// The file to remove next; `None` when all were tried.
    pub fn victim(&self) -> (r: Option<&CacheEntry>)
        requires
            self.wf(),
        ensures
            match r {
                Some(entry) => self@.next < self@.entries.len() && *entry
                    == self@.entries[self@.next as int],
                None => self@.next == self@.entries.len(),
            },
    {
        if self.next < self.entries.len() {
            Some(&self.entries[self.next])
        } else {
            None
        }
    }

    /// Takes whether that file could be removed.
    pub fn removed(&mut self, removed: bool)
        requires
            old(self).wf(),
            old(self)@.next < old(self)@.entries.len(),
        ensures
            final(self).wf(),
            final(self)@ == old(self)@.after(removed),
    {
        let count: usize = self.entries.len();
        assert(self.next < count);
        proof {
            lemma_rest_of_total(self.entries@, self.next as int);
        }
        let size: u64 = self.entries[self.next].size_bytes;
        if removed {
            self.report = ClearReport {
                removed_files: self.report.removed_files + 1,
                freed_bytes: self.report.freed_bytes + size,
                failed: self.report.failed,
            };
        } else {
            self.report = ClearReport {
                removed_files: self.report.removed_files,
                freed_bytes: self.report.freed_bytes,
                failed: self.report.failed + 1,
            };
        }
        self.next = self.next + 1;
    }

    pub fn report(&self) -> (r: ClearReport)
        ensures
            r == self@.report,
    {
        self.report
    }
}

/// A cleanup takes the oldest files first: of two files in its order, the one
/// that comes first is not newer.
pub proof fn evictions_go_oldest_first(entries: Seq<CacheEntry>, i: int, j: int)
    requires
        0 <= i <= j < oldest_first(entries).len(),
    ensures
        oldest_first(entries)[i].modified <= oldest_first(entries)[j].modified,
    decreases entries.len(),
{
    if entries.len() > 0 {
        let before = oldest_first(entries.drop_last());
        assert forall|a: int, b: int| 0 <= a <= b < before.len() implies before[a].modified
            <= before[b].modified by {
            evictions_go_oldest_first(entries.drop_last(), a, b);
        }
        lemma_put_in_sorted(before, entries.last(), i, j);
    }
}

proof fn lemma_put_in_sorted(sorted: Seq<CacheEntry>, entry: CacheEntry, i: int, j: int)
    requires
        forall|a: int, b: int|
            0 <= a <= b < sorted.len() ==> sorted[a].modified <= sorted[b].modified,
        0 <= i <= j < put_in(sorted, entry).len(),
    ensures
        put_in(sorted, entry)[i].modified <= put_in(sorted, entry)[j].modified,
        sorted.len() > 0 && sorted.last().modified > entry.modified ==> put_in(
            sorted,
            entry,
        )[j].modified <= sorted.last().modified,
    decreases sorted.len(),
{
    lemma_put_in_total(sorted, entry);
    if sorted.len() > 0 && sorted.last().modified > entry.modified {
        let rest = sorted.drop_last();
        lemma_put_in_total(rest, entry);
        let put = put_in(rest, entry);
        assert forall|a: int, b: int| 0 <= a <= b < put.len() implies put[a].modified
            <= put[b].modified && put[b].modified <= sorted.last().modified by {
            lemma_put_in_sorted(rest, entry, a, b);
            if rest.len() == 0 || rest.last().modified <= entry.modified {
                assert(put == rest.push(entry));
            }
        }
    }
}

/// A cleanup considers every cached file, each exactly once.
pub proof fn evictions_consider_every_file(entries: Seq<CacheEntry>)
    ensures
        oldest_first(entries).to_multiset() == entries.to_multiset(),
    decreases entries.len(),
{
    broadcast use vstd::seq_lib::group_to_multiset_ensures;

    if entries.len() > 0 {
        evictions_consider_every_file(entries.drop_last());
        lemma_put_in_multiset(oldest_first(entries.drop_last()), entries.last());
        assert(entries =~= entries.drop_last().push(entries.last()));
    }
}

proof fn lemma_put_in_multiset(sorted: Seq<CacheEntry>, entry: CacheEntry)
    ensures
        put_in(sorted, entry).to_multiset() == sorted.to_multiset().insert(entry),
    decreases sorted.len(),
{
    broadcast use vstd::seq_lib::group_to_multiset_ensures;

    if sorted.len() > 0 && sorted.last().modified > entry.modified {
        lemma_put_in_multiset(sorted.drop_last(), entry);
        assert(sorted =~= sorted.drop_last().push(sorted.last()));
        assert(put_in(sorted, entry).to_multiset() =~= sorted.to_multiset().insert(entry));
    }
}

/// Without a limit, and at or below it, a cleanup removes nothing.
pub proof fn cache_within_its_limit_is_left_alone(cache: CacheView, entries: Seq<CacheEntry>)
    requires
        cache.limit == 0 || total_size(entries) <= cache.limit,
    ensures
        !EvictionView::begin(cache, entries).goes_on(),
{
}

/// A cleanup that ran to its end brought the cache down to its mark, or met its
/// bound on removals, or tried every file.
pub proof fn cleanup_reaches_its_mark(eviction: EvictionView)
    requires
        !eviction.goes_on(),
        eviction.next <= eviction.entries.len(),
    ensures
        eviction.remaining <= eviction.target || eviction.report.removed_files
            >= MAX_EVICTIONS_PER_RUN || eviction.next == eviction.entries.len(),
{
}

/// The mark lies below the limit, so a cleanup that reaches it leaves room.
pub proof fn mark_lies_below_the_limit(limit: nat)
    ensures
        eviction_mark(limit) <= limit,
        limit > 0 ==> eviction_mark(limit) < limit,
{
}

/// A file that is still being written is no cached track: it is dropped from the
/// directory listing, so no cleanup and no emptying of the cache removes it.
pub proof fn partial_files_are_no_entries(items: Seq<DirItem>, i: int)
    requires
        0 <= i < entries_of(items).len(),
    ensures
        !partial(entries_of(items)[i].path@),
    decreases items.len(),
{
    if items.len() > 0 {
        let before = entries_of(items.drop_last());
        match as_entry(items.last()) {
            Some(entry) => {
                if i < before.len() {
                    partial_files_are_no_entries(items.drop_last(), i);
                }
            },
            None => {
                partial_files_are_no_entries(items.drop_last(), i);
            },
        }
    }
}

/// A lookup never answers with a file that is still being written: none of the
/// places that it tries has that ending.
pub proof fn lookups_miss_partial_files(cache: CacheView, key: Seq<char>, i: int)
    ensures
        !partial(cache.candidate(key, i)),
{
    reveal_strlit(".part");
    reveal_strlit(".");
    reveal_strlit("mp3");
    reveal_strlit("flac");
    reveal_strlit("m4a");
    reveal_strlit("aac");
    reveal_strlit("ogg");
    reveal_strlit("wav");
    reveal_strlit("ape");
    reveal_strlit("mp4");
    let ext = extension(i);
    let path = cache.candidate(key, i);
    assert(path.last() == ext.last());
    assert(bare_path(path) == path);
    if partial(path) {
        assert(path.subrange(path.len() - 5, path.len() as int)[4] == ".part"@[4]);
    }
}

/// How much stands before the name of a file in the cache: its directory, and a separator
/// where that does not end with one.
spec fn name_start(cache: CacheView) -> int {
    if cache.root.len() == 0 || cache.root.last() == '/' {
        cache.root.len() as int
    } else {
        cache.root.len() as int + 1
    }
}

proof fn lemma_cached_name(cache: CacheView, key: Seq<char>, ext: Seq<char>)
    requires
        key.len() > 0 && key[0] != '/',
    ensures
        cache.path(key, ext).len() == name_start(cache) + key.len() + 1 + ext.len(),
        cache.path(key, ext).take(cache.root.len() as int) == cache.root,
        cache.path(key, ext).subrange(name_start(cache), name_start(cache) + key.len()) == key,
        cache.path(key, ext).skip(name_start(cache)) == key + "."@ + ext,
{
    reveal_strlit(".");
    let name = key + "."@ + ext;
    assert(name[0] == key[0]);
    assert(cache.path(key, ext) == cache.root + name || cache.path(key, ext) == cache.root.push('/')
        + name);
    assert(cache.path(key, ext).take(cache.root.len() as int) =~= cache.root);
    assert(cache.path(key, ext).subrange(name_start(cache), name_start(cache) + key.len()) =~= key);
    assert(cache.path(key, ext).skip(name_start(cache)) =~= name);
}

/// A cached file stands in the directory of the cache, under its key and its ending, and
/// files with different keys are different files.
pub proof fn cached_files_stand_under_their_key(
    cache: CacheView,
    key: Seq<char>,
    other: Seq<char>,
    ext: Seq<char>,
)
    requires
        key.len() > 0 && key[0] != '/',
        other.len() > 0 && other[0] != '/',
    ensures
        cache.path(key, ext).take(cache.root.len() as int) == cache.root,
        cache.root.len() <= cache.path(key, ext).len() - (key + "."@ + ext).len(),
        cache.path(key, ext).skip(cache.path(key, ext).len() - (key + "."@ + ext).len()) == key
            + "."@ + ext,
        cache.path(key, ext) == cache.path(other, ext) ==> key == other,
{
    lemma_cached_name(cache, key, ext);
    lemma_cached_name(cache, other, ext);
    assert((key + "."@ + ext).len() == key.len() + 1 + ext.len()) by {
        reveal_strlit(".");
    }
}

/// Every place that a lookup tries is one of the key that is looked for, one for each
/// ending that audio files have.
pub proof fn lookups_try_every_ending(cache: CacheView, key: Seq<char>)
    ensures
        cache.candidate(key, 0) == cache.path(key, "mp3"@),
        cache.candidate(key, 1) == cache.path(key, "flac"@),
        cache.candidate(key, 2) == cache.path(key, "m4a"@),
        cache.candidate(key, 3) == cache.path(key, "aac"@),
        cache.candidate(key, 4) == cache.path(key, "ogg"@),
        cache.candidate(key, 5) == cache.path(key, "wav"@),
        cache.candidate(key, 6) == cache.path(key, "ape"@),
        cache.candidate(key, 7) == cache.path(key, "mp4"@),
{
}

/// The limit of a cache is set in MiB; none is set by zero.
pub proof fn limits_are_in_mebibytes(root: Seq<char>, limit_mib: u64)
    ensures
        CacheView::of(root, limit_mib).root == root,
        CacheView::of(root, 0).limit == 0,
        limit_mib <= 1_000_000 ==> CacheView::of(root, limit_mib).limit == limit_mib * 1_048_576,
{
}

/// A whole file in the directory counts as cached, with its path, its size and its age.
pub proof fn whole_files_are_entries(items: Seq<DirItem>, i: int)
    requires
        0 <= i < items.len(),
        !partial(items[i].path@),
        items[i].metadata matches Some(metadata) && metadata.is_file,
    ensures
        exists|k: int|
            0 <= k < entries_of(items).len() && #[trigger] entries_of(items)[k].path
                == items[i].path && entries_of(items)[k].size_bytes == (
            items[i].metadata->0).size_bytes && ((items[i].metadata->0).modified is Some
                ==> entries_of(items)[k].modified == (items[i].metadata->0).modified->0),
    decreases items.len(),
{
    let before = entries_of(items.drop_last());
    if i == items.len() - 1 {
        assert(entries_of(items)[before.len() as int].path == items[i].path);
    } else {
        assert(items.drop_last()[i] == items[i]);
        whole_files_are_entries(items.drop_last(), i);
        let k = choose|k: int|
            0 <= k < before.len() && #[trigger] before[k].path == items[i].path
                && before[k].size_bytes == (items[i].metadata->0).size_bytes && ((
            items[i].metadata->0).modified is Some ==> before[k].modified == (
            items[i].metadata->0).modified->0);
        assert(entries_of(items)[k] == before[k]);
    }
}

/// The size of a cache is the sum of the sizes of its files.
pub proof fn sizes_add_up(entries: Seq<CacheEntry>, entry: CacheEntry)
    ensures
        total_size(Seq::<CacheEntry>::empty()) == 0,
        total_size(entries.push(entry)) == total_size(entries) + entry.size_bytes,
{
    assert(entries.push(entry).drop_last() =~= entries);
}

/// A cache over its limit is cleaned up, from its oldest file on, down to four fifths of
/// the limit.
pub proof fn full_caches_are_cleaned_up(cache: CacheView, entries: Seq<CacheEntry>)
    requires
        cache.limit > 0,
        total_size(entries) > cache.limit,
        entries.len() > 0,
    ensures
        ({
            let cleanup = EvictionView::begin(cache, entries);
            &&& cleanup.goes_on()
            &&& cleanup.entries == oldest_first(entries)
            &&& cleanup.remaining == total_size(entries)
            &&& cleanup.target * 5 <= cache.limit * 4
            &&& cache.limit * 4 < (cleanup.target + 1) * 5
        }),
{
    evictions_consider_every_file(entries);
    entries.to_multiset_ensures();
    oldest_first(entries).to_multiset_ensures();
}

/// What a cleanup counts is what became of the files: a file that was removed makes room and
/// is reported, one that was gone makes room alone, and one that could not be removed
/// neither. Each is tried once.
pub proof fn cleanups_count_what_they_remove(cleanup: EvictionView)
    requires
        cleanup.next < cleanup.entries.len(),
        cleanup.entries[cleanup.next as int].size_bytes <= cleanup.remaining,
        cleanup.report.removed_files < MAX_EVICTIONS_PER_RUN,
        cleanup.report.freed_bytes + cleanup.entries[cleanup.next as int].size_bytes <= u64::MAX,
    ensures
        ({
            let size = cleanup.entries[cleanup.next as int].size_bytes;
            let removed = cleanup.after(Removal::Removed);
            let missing = cleanup.after(Removal::Missing);
            let failed = cleanup.after(Removal::Failed);
            &&& removed.remaining == cleanup.remaining - size
            &&& removed.report.freed_bytes == cleanup.report.freed_bytes + size
            &&& removed.report.removed_files == cleanup.report.removed_files + 1
            &&& missing.remaining == cleanup.remaining - size
            &&& missing.report == cleanup.report
            &&& failed.remaining == cleanup.remaining
            &&& failed.report == cleanup.report
            &&& removed.next == cleanup.next + 1
            &&& missing.next == cleanup.next + 1
            &&& failed.next == cleanup.next + 1
            &&& removed.entries == cleanup.entries
            &&& removed.target == cleanup.target
        }),
{
}

/// Emptying a cache tries every file once, and counts what was removed and what was not.
pub proof fn emptying_counts_what_it_removes(entries: Seq<CacheEntry>, clearing: ClearingView)
    requires
        clearing.next < clearing.entries.len() <= usize::MAX,
        clearing.report.removed_files <= clearing.next,
        clearing.report.failed <= clearing.next,
        clearing.report.freed_bytes + clearing.entries[clearing.next as int].size_bytes
            <= u64::MAX,
    ensures
        ClearingView::begin(entries).entries == entries,
        ClearingView::begin(entries).next == 0,
        ClearingView::begin(entries).report.removed_files == 0,
        ClearingView::begin(entries).report.failed == 0,
        ({
            let removed = clearing.after(true);
            let kept = clearing.after(false);
            &&& removed.report.removed_files == clearing.report.removed_files + 1
            &&& removed.report.freed_bytes == clearing.report.freed_bytes
                + clearing.entries[clearing.next as int].size_bytes
            &&& removed.report.failed == clearing.report.failed
            &&& kept.report.failed == clearing.report.failed + 1
            &&& kept.report.removed_files == clearing.report.removed_files
            &&& kept.report.freed_bytes == clearing.report.freed_bytes
            &&& removed.next == clearing.next + 1
            &&& kept.next == clearing.next + 1
        }),
{
}

} // verus!
