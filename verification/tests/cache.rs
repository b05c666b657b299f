use kugou_tui::audio::cache::{
    is_partial, AudioCache, CacheEntry, ClearReport, DirItem, EvictionReport, ItemMetadata, Removal,
};

/// A directory: the files in it, with their sizes.
struct Directory {
    files: Vec<(String, u64)>,
}

impl Directory {
    fn new() -> Self {
        Directory { files: Vec::new() }
    }

    fn write(&mut self, path: String, size: u64) {
        self.files.push((path, size));
    }

    fn names(&self) -> Vec<String> {
        self.files.iter().map(|(path, _)| path.clone()).collect()
    }

    fn has(&self, path: &str) -> bool {
        self.files.iter().any(|(own, _)| own == path)
    }

    fn remove(&mut self, path: &str) {
        self.files.retain(|(own, _)| own != path);
    }

    fn items(&self) -> Vec<DirItem> {
        let mut at = 0;
        self.files
            .iter()
            .map(|(path, size)| {
                at += 1;
                DirItem {
                    path: path.clone(),
                    metadata: Some(ItemMetadata {
                        is_file: true,
                        size_bytes: *size,
                        modified: Some(at),
                    }),
                }
            })
            .collect()
    }

    fn total(&self, cache: &AudioCache) -> u64 {
        cache.total_bytes(&cache.entries(&self.items()))
    }

    fn enforce_limit(&mut self, cache: &AudioCache) -> EvictionReport {
        let mut plan = cache.enforce_limit(cache.entries(&self.items()));
        loop {
            let path = match plan.victim() {
                Some(entry) => entry.path.clone(),
                None => return plan.report(),
            };
            self.remove(&path);
            plan.removed(Removal::Removed);
        }
    }

    fn clear(&mut self, cache: &AudioCache) -> ClearReport {
        let mut plan = cache.clear(cache.entries(&self.items()));
        loop {
            let path = match plan.victim() {
                Some(entry) => entry.path.clone(),
                None => return plan.report(),
            };
            self.remove(&path);
            plan.removed(true);
        }
    }
}

fn root(name: &str) -> String {
    format!("/tmp/kugou-tui-test-{name}")
}

#[test]
fn finds_file_regardless_of_extension() {
    let cache = AudioCache::new(root("find"), 0);
    let mut dir = Directory::new();
    dir.write(cache.path_for("abc-128", "flac"), 1);
    assert_eq!(
        cache.find("abc-128", &dir.names()),
        Some(cache.path_for("abc-128", "flac"))
    );
    assert_eq!(cache.find("missing", &dir.names()), None);
}

#[test]
fn unlimited_cache_never_evicts() {
    let cache = AudioCache::new(root("unlimited"), 0);
    let mut dir = Directory::new();
    dir.write(cache.path_for("a-128", "mp3"), 4096);

    let report = dir.enforce_limit(&cache);
    assert_eq!(report.removed_files, 0);
    assert!(dir.has(&cache.path_for("a-128", "mp3")));
}

#[test]
fn evicts_oldest_files_when_over_limit() {
    let cache = AudioCache::new(root("evict"), 1);
    let mut dir = Directory::new();
    for index in 0..3 {
        dir.write(cache.path_for(&format!("song{index}"), "mp3"), 512 * 1024);
    }
    assert!(dir.total(&cache) > 1024 * 1024);

    let report = dir.enforce_limit(&cache);
    assert!(report.removed_files > 0, "应至少删除一个文件");
    assert!(dir.total(&cache) <= 1024 * 1024, "回收后应低于上限");
    // 1 MiB leaves room for one file of 512 KiB below four fifths of it.
    assert_eq!(report.removed_files, 2);
    assert_eq!(report.freed_bytes, 1024 * 1024);
    assert_eq!(dir.names(), vec![cache.path_for("song2", "mp3")]);
}

#[test]
fn clear_removes_everything() {
    let cache = AudioCache::new(root("clear"), 0);
    let mut dir = Directory::new();
    dir.write(cache.path_for("a", "mp3"), 4);
    dir.write(cache.path_for("b", "flac"), 4);

    let tiny = AudioCache::new(root("clear"), 0);
    let report = dir.enforce_limit(&tiny);
    assert_eq!(report.removed_files, 0, "上限为 0 表示不限制");

    let report = dir.clear(&cache);
    assert_eq!(report.removed_files, 2);
    assert_eq!(report.freed_bytes, 8);
    assert_eq!(report.failed, 0);
    assert!(dir.files.is_empty());
}

#[test]
fn partial_downloads_are_not_cache_entries() {
    let cache = AudioCache::new(root("partial"), 1);
    let mut dir = Directory::new();

    let partial = cache.path_for("streaming", "mp3.part");
    dir.write(partial.clone(), 64 * 1024);
    for index in 0..2 {
        dir.write(cache.path_for(&format!("song{index}"), "mp3"), 600 * 1024);
    }

    let report = dir.enforce_limit(&cache);
    assert!(report.removed_files > 0, "应当回收真正的缓存文件");
    assert!(dir.has(&partial), "半成品不参与回收");

    dir.clear(&cache);
    assert!(dir.has(&partial), "清空缓存也不该动半成品");
}

#[test]
fn files_that_are_gone_already_count_as_freed_space_only() {
    let cache = AudioCache::new(root("gone"), 1);
    let mut dir = Directory::new();
    for index in 0..3 {
        dir.write(cache.path_for(&format!("song{index}"), "mp3"), 512 * 1024);
    }
    let mut plan = cache.enforce_limit(cache.entries(&dir.items()));
    let first = plan.victim().map(|entry| entry.path.clone());
    assert_eq!(first, Some(cache.path_for("song0", "mp3")));
    plan.removed(Removal::Missing);
    plan.removed(Removal::Failed);
    assert_eq!(plan.report().removed_files, 0);
    assert_eq!(plan.report().freed_bytes, 0);
}

#[test]
fn files_that_cannot_be_removed_are_counted() {
    let cache = AudioCache::new(root("stuck"), 0);
    let entries = vec![
        CacheEntry { path: "/x/a.mp3".to_string(), size_bytes: 10, modified: 1 },
        CacheEntry { path: "/x/b.mp3".to_string(), size_bytes: 20, modified: 2 },
    ];
    let mut plan = cache.clear(entries);
    plan.removed(false);
    plan.removed(true);
    assert!(plan.victim().is_none());
    assert_eq!(
        plan.report(),
        ClearReport { removed_files: 1, freed_bytes: 20, failed: 1 }
    );
}

#[test]
fn endings_are_tried_in_their_order() {
    let cache = AudioCache::new("/c".to_string(), 0);
    let files = vec![cache.path_for("k", "flac"), cache.path_for("k", "mp3")];
    assert_eq!(cache.find("k", &files), Some("/c/k.mp3".to_string()));
    assert_eq!(cache.root(), "/c");
}

#[test]
fn directories_and_unreadable_entries_are_passed_over() {
    let cache = AudioCache::new("/c".to_string(), 0);
    let items = vec![
        DirItem { path: "/c/a.mp3".to_string(), metadata: None },
        DirItem {
            path: "/c/sub".to_string(),
            metadata: Some(ItemMetadata { is_file: false, size_bytes: 5, modified: None }),
        },
        DirItem {
            path: "/c/b.mp3".to_string(),
            metadata: Some(ItemMetadata { is_file: true, size_bytes: 7, modified: None }),
        },
    ];
    let entries = cache.entries(&items);
    assert_eq!(entries.len(), 1);
    assert_eq!(entries[0].path, "/c/b.mp3");
    assert_eq!(entries[0].modified, 0);
    assert_eq!(cache.total_bytes(&entries), 7);
    assert!(is_partial("/c/b.mp3.part"));
    assert!(!is_partial("/c/b.mp3"));
    assert!(is_partial("/c/a.part/"));
    assert!(is_partial("/c/a.part/."));
    assert!(!is_partial("abc-128.mp3"));
    assert!(!is_partial("a.part.mp3"));
    assert!(!is_partial(".part"));
}
