use cache_layout::errors::LayoutError;
use cache_layout::layout::CacheLayout;
use cache_layout::paths::LayoutPaths;
use cache_layout::paths::cache_version;
use cache_layout::paths::join;

#[test]
fn version_is_zero() {
    assert_eq!(cache_version(), "0");
}

#[test]
fn join_inserts_one_separator() {
    assert_eq!(join("a", "b"), "a/b");
    assert_eq!(join("", "b"), "/b");
    assert_eq!(join("/tmp/cache", "0"), "/tmp/cache/0");
}

#[test]
fn resolve_computes_the_documented_tree() {
    let paths = LayoutPaths::resolve(Some(String::from("/tmp/cache"))).unwrap();
    assert_eq!(paths.root(), "/tmp/cache");
    assert_eq!(paths.dest(), "/tmp/cache/0");
    assert_eq!(paths.deps(), "/tmp/cache/0/deps");
    assert_eq!(paths.build(), "/tmp/cache/0/build");
    assert_eq!(paths.fingerprint(), "/tmp/cache/0/.fingerprint");
    assert_eq!(paths.lock_file(), "/tmp/cache/0/.cargo-lock");
}

#[test]
fn resolve_of_relative_root() {
    let paths = LayoutPaths::resolve(Some(String::from("cache"))).unwrap();
    assert_eq!(paths.dest(), "cache/0");
    assert_eq!(paths.deps(), "cache/0/deps");
}

#[test]
fn no_root_means_no_layout() {
    assert!(LayoutPaths::resolve(None).is_none());
}

#[test]
fn creation_runs_exactly_when_dest_is_missing() {
    let paths = LayoutPaths::resolve(Some(String::from("/tmp/cache"))).unwrap();
    assert!(paths.creation_needed(false));
    assert!(!paths.creation_needed(true));
}

#[test]
fn backup_hint_outcome_changes_nothing() {
    let paths = LayoutPaths::resolve(Some(String::from("/tmp/cache"))).unwrap();
    let after_success = paths.after_backup_hint(true);
    let after_failure = paths.after_backup_hint(false);
    assert_eq!(after_success, after_failure);
    assert_eq!(after_failure, "/tmp/cache/0/.cargo-lock");
}

#[test]
fn layout_exposes_the_resolved_paths() {
    let paths = LayoutPaths::resolve(Some(String::from("/tmp/cache"))).unwrap();
    let lock_token: u8 = 7;
    let layout = CacheLayout::new(paths, lock_token);
    assert_eq!(layout.root(), "/tmp/cache");
    assert_eq!(layout.dest(), "/tmp/cache/0");
    assert_eq!(layout.deps(), "/tmp/cache/0/deps");
    assert_eq!(layout.build(), "/tmp/cache/0/build");
    assert_eq!(layout.fingerprint(), "/tmp/cache/0/.fingerprint");
}

#[test]
fn prepare_lists_the_three_directories_in_order() {
    let paths = LayoutPaths::resolve(Some(String::from("/tmp/cache"))).unwrap();
    let mut layout = CacheLayout::new(paths, 0u8);
    let dirs = layout.prepare();
    assert_eq!(
        dirs,
        vec![
            String::from("/tmp/cache/0/deps"),
            String::from("/tmp/cache/0/.fingerprint"),
            String::from("/tmp/cache/0/build"),
        ]
    );
}

#[test]
fn prepare_twice_asks_for_the_same_tree() {
    let paths = LayoutPaths::resolve(Some(String::from("/tmp/cache"))).unwrap();
    let mut layout = CacheLayout::new(paths, 0u8);
    let first = layout.prepare();
    let second = layout.prepare();
    assert_eq!(first, second);
    assert_eq!(layout.dest(), "/tmp/cache/0");
}

#[test]
fn bumped_version_tree_is_disjoint() {
    let paths = LayoutPaths::resolve(Some(String::from("/tmp/cache"))).unwrap();
    let other_dest = "/tmp/cache/1";
    let exposed = [
        paths.dest().to_string(),
        paths.deps().to_string(),
        paths.build().to_string(),
        paths.fingerprint().to_string(),
        paths.lock_file(),
    ];
    for p in exposed.iter() {
        assert_ne!(p.as_str(), other_dest);
        assert!(!p.starts_with("/tmp/cache/1/"));
    }
}

#[test]
fn lock_failure_describes_itself() {
    let e = LayoutError::LockAcquisitionFailure {
        path: String::from("/tmp/cache/0/.cargo-lock"),
        detail: String::from("permission denied"),
    };
    assert_eq!(
        e.describe(),
        "failed to lock the cache directory at /tmp/cache/0/.cargo-lock: permission denied"
    );
}

#[test]
fn directory_failure_describes_itself() {
    let e = LayoutError::DirectoryCreationFailure {
        path: String::from("/tmp/cache/0/deps"),
        detail: String::from("disk full"),
    };
    assert_eq!(
        e.describe(),
        "failed to create the cache directory /tmp/cache/0/deps: disk full"
    );
}
