use status_service::cache::ConfigCache;
use status_service::errors::ConfigError;
use status_service::revision::CommandOutput;

const GOOD_DOC: &str = "{\"description\": \"svc\", \"version\": \"1.2.3\"}";

fn good_output() -> CommandOutput {
    CommandOutput { success: true, stdout: b"abc123\n".to_vec() }
}

#[test]
fn empty_cache_misses() {
    let cache = ConfigCache::new();
    assert!(cache.lookup(0).is_none());
    assert!(cache.lookup(1_000_000).is_none());
}

#[test]
fn successful_refresh_returns_snapshot() {
    let mut cache = ConfigCache::new();
    let snap = cache.apply_refresh(1000, Some(GOOD_DOC), Some(good_output())).unwrap();
    assert_eq!(snap.metadata.description, "svc");
    assert_eq!(snap.metadata.version, "1.2.3");
    assert_eq!(snap.sha, "abc123");
    assert_eq!(snap.last_updated, 1000);
}

#[test]
fn lookup_within_window_returns_identical_snapshot() {
    let mut cache = ConfigCache::new();
    let snap = cache.apply_refresh(1000, Some(GOOD_DOC), Some(good_output())).unwrap();
    for t in [1000u64, 1001, 150_000, 1000 + 299_999] {
        let hit = cache.lookup(t).unwrap();
        assert_eq!(hit.metadata.description, snap.metadata.description);
        assert_eq!(hit.metadata.version, snap.metadata.version);
        assert_eq!(hit.sha, snap.sha);
        assert_eq!(hit.last_updated, 1000);
    }
}

#[test]
fn lookup_after_window_misses() {
    let mut cache = ConfigCache::new();
    cache.apply_refresh(1000, Some(GOOD_DOC), Some(good_output())).unwrap();
    assert!(cache.lookup(1000 + 300_000).is_none());
    assert!(cache.lookup(u64::MAX).is_none());
}

#[test]
fn refresh_updates_last_updated() {
    let mut cache = ConfigCache::new();
    cache.apply_refresh(1000, Some(GOOD_DOC), Some(good_output())).unwrap();
    let output = CommandOutput { success: true, stdout: b"def456\n".to_vec() };
    let snap = cache.apply_refresh(2_000_000, Some(GOOD_DOC), Some(output)).unwrap();
    assert_eq!(snap.last_updated, 2_000_000);
    assert_eq!(snap.sha, "def456");
    let hit = cache.lookup(2_000_001).unwrap();
    assert_eq!(hit.last_updated, 2_000_000);
    assert_eq!(hit.sha, "def456");
}

#[test]
fn unreadable_metadata_signals_load_error_and_keeps_snapshot() {
    let mut cache = ConfigCache::new();
    cache.apply_refresh(1000, Some(GOOD_DOC), Some(good_output())).unwrap();
    let r = cache.apply_refresh(400_000, None, None);
    assert_eq!(r.unwrap_err(), ConfigError::ConfigLoadError);
    let held = cache.lookup(1000 + 200_000).unwrap();
    assert_eq!(held.sha, "abc123");
    assert_eq!(held.last_updated, 1000);
}

#[test]
fn unparseable_metadata_signals_load_error() {
    let mut cache = ConfigCache::new();
    let r = cache.apply_refresh(1000, Some("not json at all"), Some(good_output()));
    assert_eq!(r.unwrap_err(), ConfigError::ConfigLoadError);
    assert!(cache.lookup(1000).is_none());
}

#[test]
fn failed_revision_signals_lookup_error_and_keeps_snapshot() {
    let mut cache = ConfigCache::new();
    cache.apply_refresh(1000, Some(GOOD_DOC), Some(good_output())).unwrap();
    let failed = CommandOutput { success: false, stdout: Vec::new() };
    let r = cache.apply_refresh(400_000, Some(GOOD_DOC), Some(failed));
    assert_eq!(r.unwrap_err(), ConfigError::RevisionLookupError);
    let held = cache.lookup(1000 + 200_000).unwrap();
    assert_eq!(held.sha, "abc123");
    assert_eq!(held.last_updated, 1000);
}

#[test]
fn missing_revision_command_signals_lookup_error() {
    let mut cache = ConfigCache::new();
    let r = cache.apply_refresh(1000, Some(GOOD_DOC), None);
    assert_eq!(r.unwrap_err(), ConfigError::RevisionLookupError);
    assert!(cache.lookup(1000).is_none());
}
