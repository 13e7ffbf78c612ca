use mullion::{Activity, ActivityCacheKey, ActivityId, PaneId, WorkspaceId};

fn key(workspace: Option<&str>, pane: &str, activity: &str) -> ActivityCacheKey {
    ActivityCacheKey::new(
        workspace.map(|id| WorkspaceId(id.into())),
        PaneId::new(pane),
        ActivityId::new(activity),
    )
}

#[test]
fn stable_key_includes_all_three_identity_components() {
    assert_eq!(key(Some("w"), "p", "a"), key(Some("w"), "p", "a"));
    assert_ne!(key(Some("w"), "p", "a"), key(Some("x"), "p", "a"));
    assert_ne!(key(Some("w"), "p", "a"), key(Some("w"), "q", "a"));
    assert_ne!(key(Some("w"), "p", "a"), key(Some("w"), "p", "b"));
    assert_ne!(key(None, "p", "a"), key(Some("w"), "p", "a"));
}

#[test]
fn activity_builder_accepts_string_ids_and_defaults_visible() {
    let activity = Activity::new(ActivityId::new("files"), "Files");
    assert_eq!(activity.id.0, "files");
    assert_eq!(activity.name, "Files");
    assert!(activity.visible);
    assert!(!activity.with_visible(false).visible);
}

#[test]
fn cache_insert_replaces_in_place_and_get_finds_by_key() {
    let mut cache: mullion::ActivityCache<&str, u32> = mullion::ActivityCache::new();
    cache.insert(key(Some("one"), "pane", "a"), "first", 1);
    cache.insert(key(None, "pane", "a"), "outside", 2);
    assert_eq!(cache.len(), 2);
    cache.insert(key(Some("one"), "pane", "a"), "second", 3);
    assert_eq!(cache.len(), 2);
    let entry = cache.get(&key(Some("one"), "pane", "a")).unwrap();
    assert_eq!(entry.instance, "second");
    assert_eq!(entry.data, 3);
    assert_eq!(cache.get(&key(None, "pane", "a")).unwrap().instance, "outside");
    assert!(cache.get(&key(Some("two"), "pane", "a")).is_none());
}

#[test]
fn cache_keys_separate_workspaces_and_eviction_returns_each_instance() {
    let mut cache: mullion::ActivityCache<String, String> = mullion::ActivityCache::default();
    for workspace in ["one", "two"] {
        cache.insert(
            key(Some(workspace), "same-pane", "same-activity"),
            format!("instance-{workspace}"),
            workspace.to_string(),
        );
    }
    assert_eq!(cache.len(), 2);
    let removed = cache.remove_invalid(|key| key.workspace.as_ref() == Some(&WorkspaceId("two".into())));
    assert_eq!(removed, vec!["instance-one".to_string()]);
    assert_eq!(cache.len(), 1);
    assert!(cache.get(&key(Some("two"), "same-pane", "same-activity")).is_some());
    let drained = cache.drain();
    assert_eq!(drained, vec!["instance-two".to_string()]);
    assert_eq!(cache.len(), 0);
}

#[test]
fn registry_is_additive_and_duplicate_registration_returns_previous_factory() {
    let mut registry: mullion::ActivityFactoryRegistry<fn() -> u32> = mullion::ActivityFactoryRegistry::new();
    fn first() -> u32 {
        1
    }
    fn second() -> u32 {
        2
    }
    assert!(registry.register(ActivityId::new("stateful"), first).is_none());
    assert!(registry.contains(&ActivityId::new("stateful")));
    let previous = registry.register(ActivityId::new("stateful"), second).unwrap();
    assert_eq!(previous(), 1);
    assert_eq!((registry.get(&ActivityId::new("stateful")).unwrap())(), 2);
    assert!(!registry.contains(&ActivityId::new("other")));
    assert_eq!((registry.unregister(&ActivityId::new("stateful")).unwrap())(), 2);
    assert!(registry.get(&ActivityId::new("stateful")).is_none());
    assert!(registry.unregister(&ActivityId::new("stateful")).is_none());
}
