use mullion::{
    Activity, ActivityCatalog, ActivityCatalogGroup, ActivityCatalogValidationError, ActivityCategory,
    ActivityId, ActivityNode, CategoryChrome, CategoryId, VisibleActivityNode,
};

fn activity(id: &str, visible: bool) -> ActivityNode<u32> {
    ActivityNode::Activity(Activity::new(ActivityId::new(id), id).with_visible(visible))
}

fn category(id: &str, color: u32, children: Vec<ActivityNode<u32>>) -> ActivityNode<u32> {
    ActivityNode::Category(ActivityCategory::new(CategoryId::new(id), id, color, children))
}

fn activity_ids(nodes: &[VisibleActivityNode<u32>], out: &mut Vec<String>) {
    for node in nodes {
        match node {
            VisibleActivityNode::Activity(activity) => out.push(activity.activity.id.0.clone()),
            VisibleActivityNode::Category(category) => activity_ids(&category.children, out),
        }
    }
}

#[test]
fn recursive_projection_preserves_groups_order_prunes_and_tracks_active_path() {
    let catalog = ActivityCatalog::new(vec![
        activity("root", true),
        category(
            "outer",
            0xff0000,
            vec![
                activity("filtered", false),
                category("empty", 0x00ff00, vec![activity("gone", false)]),
                category("inner", 0x0000ff, vec![activity("active", true)]),
            ],
        ),
    ])
    .with_trailing(vec![activity("settings", true)]);

    let projection = catalog.visible(Some(&ActivityId::new("active")));
    let mut primary = Vec::new();
    activity_ids(&projection.primary, &mut primary);
    let mut trailing = Vec::new();
    activity_ids(&projection.trailing, &mut trailing);
    assert_eq!(primary, ["root", "active"]);
    assert_eq!(trailing, ["settings"]);
    assert_eq!(
        projection.active_ancestors,
        [CategoryId::new("outer"), CategoryId::new("inner")]
    );

    let VisibleActivityNode::Category(outer) = &projection.primary[1] else {
        panic!("outer category retained");
    };
    assert_eq!(outer.children.len(), 1, "both empty branches are pruned");
    let VisibleActivityNode::Category(inner) = &outer.children[0] else {
        panic!("inner category retained");
    };
    let VisibleActivityNode::Activity(active) = &inner.children[0] else {
        panic!("active activity retained");
    };
    assert_eq!(active.inherited_color, Some(0x0000ff));
    assert!(active.activity.visible);
}

#[test]
fn nearest_category_chrome_color_overrides_legacy_inheritance() {
    let override_color: u32 = 0xabcdef;
    let catalog = ActivityCatalog::new(vec![category(
        "outer",
        0xff0000,
        vec![category("inner", 0x00ff00, vec![activity("leaf", true)])],
    )])
    .with_category_chrome(CategoryId::new("inner"), CategoryChrome::new().with_color(override_color));
    let projection = catalog.visible(None);
    let VisibleActivityNode::Category(outer) = &projection.primary[0] else { panic!() };
    let VisibleActivityNode::Category(inner) = &outer.children[0] else { panic!() };
    let VisibleActivityNode::Activity(leaf) = &inner.children[0] else { panic!() };
    assert_eq!(leaf.inherited_color, Some(override_color));
}

#[test]
fn validation_finds_duplicates_across_depth_and_groups_and_orphan_chrome() {
    let duplicate_activity = ActivityCatalog::new(vec![activity("same", true)])
        .with_trailing(vec![category("container", 0, vec![activity("same", true)])]);
    assert!(matches!(
        duplicate_activity.validate(),
        Err(ActivityCatalogValidationError::DuplicateActivityId {
            duplicate_group: ActivityCatalogGroup::Trailing,
            ..
        })
    ));

    let duplicate_category = ActivityCatalog::new(vec![category(
        "same",
        0,
        vec![category("same", 0, vec![activity("leaf", true)])],
    )]);
    assert!(matches!(
        duplicate_category.validate(),
        Err(ActivityCatalogValidationError::DuplicateCategoryId { .. })
    ));

    let orphan = ActivityCatalog::new(vec![activity("known", true)])
        .with_activity_chrome(ActivityId::new("missing"));
    assert_eq!(
        orphan.validate(),
        Err(ActivityCatalogValidationError::MissingActivityChromeKey {
            activity_id: ActivityId::new("missing")
        })
    );
}

#[test]
fn a_well_formed_catalog_validates_and_reports_no_ancestors_without_active() {
    let catalog = ActivityCatalog::new(vec![category("c", 1, vec![activity("a", true)])])
        .with_trailing(vec![activity("b", false)])
        .with_activity_chrome(ActivityId::new("b"))
        .with_category_chrome(CategoryId::new("c"), CategoryChrome::new());
    assert_eq!(catalog.validate(), Ok(()));
    let projection = catalog.visible(None);
    assert!(projection.active_ancestors.is_empty());
    assert!(projection.trailing.is_empty(), "hidden activities are dropped");
    let VisibleActivityNode::Category(c) = &projection.primary[0] else { panic!() };
    assert_eq!(c.color, 1, "chrome without a color keeps the category color");
    assert!(catalog.activity_chrome(&ActivityId::new("b")));
    assert!(!catalog.activity_chrome(&ActivityId::new("a")));
}

#[test]
fn orphan_category_chrome_and_messages_are_reported() {
    let catalog: ActivityCatalog<u32> = ActivityCatalog::new(vec![activity("a", true)])
        .with_category_chrome(CategoryId::new("ghost"), CategoryChrome::new().with_color(7));
    let error = catalog.validate().unwrap_err();
    assert_eq!(
        error,
        ActivityCatalogValidationError::MissingCategoryChromeKey { category_id: CategoryId::new("ghost") }
    );
    assert_eq!(error.message(), "category chrome key \"ghost\" has no registered category");
    let duplicate = ActivityCatalogValidationError::DuplicateActivityId {
        activity_id: ActivityId::new("say \"hi\""),
        duplicate_group: ActivityCatalogGroup::Primary,
    };
    assert_eq!(duplicate.message(), "duplicate activity id \"say \\\"hi\\\"\"");
}

#[test]
fn chrome_registration_replaces_in_place_and_reports_the_previous_entry() {
    let mut catalog: ActivityCatalog<u32> =
        ActivityCatalog::new(vec![category("c", 1, vec![activity("a", true)])]);
    assert!(catalog.insert_category_chrome(CategoryId::new("c"), CategoryChrome::new().with_color(2)).is_none());
    let previous = catalog.insert_category_chrome(CategoryId::new("c"), CategoryChrome::new().with_color(3));
    assert_eq!(previous.unwrap().color, Some(2));
    assert_eq!(catalog.category_chrome(&CategoryId::new("c")).unwrap().color, Some(3));
    assert!(!catalog.insert_activity_chrome(ActivityId::new("a")));
    assert!(catalog.insert_activity_chrome(ActivityId::new("a")));
    let projection = catalog.visible(Some(&ActivityId::new("a")));
    let VisibleActivityNode::Category(c) = &projection.primary[0] else { panic!() };
    assert_eq!(c.color, 3);
    assert_eq!(projection.active_ancestors, [CategoryId::new("c")]);
}

#[test]
fn the_last_visible_match_decides_the_active_path() {
    let catalog = ActivityCatalog::new(vec![category("first", 0, vec![activity("x", true)])])
        .with_trailing(vec![category("second", 0, vec![activity("x", true)]), activity("y", false)]);
    let projection = catalog.visible(Some(&ActivityId::new("x")));
    assert_eq!(projection.active_ancestors, [CategoryId::new("second")]);
    let hidden = catalog.visible(Some(&ActivityId::new("y")));
    assert!(hidden.active_ancestors.is_empty());
}

#[test]
fn nodes_list_their_visible_activities_in_order() {
    let node = category(
        "c",
        0,
        vec![activity("a", true), category("d", 0, vec![activity("b", false), activity("e", true)])],
    );
    let mut out = Vec::new();
    node.activities(&mut out);
    let ids: Vec<&str> = out.iter().map(|a| a.id.0.as_str()).collect();
    assert_eq!(ids, ["a", "e"]);
}
