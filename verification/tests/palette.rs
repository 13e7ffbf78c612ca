use mullion::{
    activity_palette_entries, focus_index_palette_entries, mullion_palette_entries,
    pane_command_palette_entries, Activity, ActivityCatalog, ActivityCategory, ActivityId,
    ActivityNode, CategoryId, PaletteInvocation, PaletteInvocationError, PaneCommand,
    PaneCommandError, PaneId,
};

fn activity(id: &str, name: &str, visible: bool) -> ActivityNode<u32> {
    ActivityNode::Activity(Activity::new(ActivityId::new(id), name).with_visible(visible))
}

#[test]
fn command_and_focus_adapters_are_stable() {
    let entries = pane_command_palette_entries(true);
    assert_eq!(entries.len(), PaneCommand::catalog().len());
    assert_eq!(entries[0].id, "mullion.focus.left");
    assert_eq!(entries[0].group, "Mullion · Focus");
    let panes = vec![PaneId::new("one"), PaneId::new("two")];
    let focus = focus_index_palette_entries(&panes);
    assert_eq!(focus[1].id, "mullion.focus.pane.two");
    assert_eq!(focus[1].name, "2 · two");
    assert_eq!(focus[1].metadata, PaletteInvocation::PaneCommand(PaneCommand::FocusIndex(1)));
    let projected = mullion_palette_entries(&panes, true);
    assert_eq!(projected[0].id, "mullion.focus.pane");
    assert_eq!(projected[0].name, "Focus Pane…");
    assert_eq!(projected[0].children.len(), 2);
}

#[test]
fn dynamic_activity_metadata_and_invocation() {
    let catalog = ActivityCatalog::new(vec![ActivityNode::Category(ActivityCategory::new(
        CategoryId::new("media"),
        "Media",
        0xff0000u32,
        vec![activity("hidden", "Hidden", false), activity("meters", "Meters", true)],
    ))]);
    let entries = activity_palette_entries(&catalog, &PaneId::new("main"));
    assert_eq!(entries.len(), 1);
    assert_eq!(entries[0].group, "Mullion · Activities · Media");
    assert_eq!(
        entries[0].metadata,
        PaletteInvocation::SelectActivity {
            pane: PaneId::new("main"),
            activity: ActivityId::new("meters")
        }
    );
}

#[test]
fn split_commands_are_omitted_when_splitting_is_unavailable() {
    let all = pane_command_palette_entries(true);
    let without = pane_command_palette_entries(false);
    assert_eq!(without.len(), all.len() - 2);
    assert!(without.iter().all(|e| !e.id.starts_with("mullion.split.")));
    let mullion = mullion_palette_entries(&[], false);
    assert_eq!(mullion.len(), without.len() + 1);
    assert!(mullion[0].searchable_children);
    assert!(mullion[0].children.is_empty());
    assert_eq!(mullion[1].id, without[0].id);
}

#[test]
fn activity_entries_carry_breadcrumbs_and_group_labels() {
    let catalog = ActivityCatalog::new(vec![
        activity("top", "Top", true),
        ActivityNode::Category(ActivityCategory::new(
            CategoryId::new("a"),
            "Audio",
            1u32,
            vec![ActivityNode::Category(ActivityCategory::new(
                CategoryId::new("m"),
                "Mix",
                2,
                vec![activity("eq", "EQ", true)],
            ))],
        )),
    ])
    .with_trailing(vec![activity("prefs", "Prefs", true)]);
    let entries = activity_palette_entries(&catalog, &PaneId::new("p"));
    assert_eq!(entries.len(), 3);
    assert_eq!(entries[0].id, "mullion.activity.p.top");
    assert_eq!(entries[0].group, "Mullion · Activities");
    assert_eq!(entries[0].description, "Select this activity in pane p");
    assert_eq!(entries[1].name, "EQ");
    assert_eq!(entries[1].group, "Mullion · Activities · Audio › Mix");
    assert_eq!(entries[1].description, "Select from Audio › Mix in pane p");
    assert_eq!(entries[2].group, "Mullion · Activities · Trailing");
}

#[test]
fn invocation_accessors_and_errors_describe_themselves() {
    let select = PaletteInvocation::SelectActivity { pane: PaneId::new("p"), activity: ActivityId::new("a") };
    assert_eq!(select.pane_command(), None);
    assert_eq!(select.activity(), Some((&PaneId::new("p"), &ActivityId::new("a"))));
    let command = PaletteInvocation::PaneCommand(PaneCommand::Close);
    assert_eq!(command.pane_command(), Some(PaneCommand::Close));
    assert_eq!(command.activity(), None);

    assert_eq!(PaletteInvocationError::PaneNotFound(PaneId::new("x")).message(), "pane `x` does not exist");
    assert_eq!(
        PaletteInvocationError::ActivityNotVisible { pane: PaneId::new("p"), activity: ActivityId::new("a") }
            .message(),
        "activity `a` is not visible in pane `p`"
    );
    let wrapped = PaletteInvocationError::Command(PaneCommandError::NoFocusedPane);
    assert_eq!(wrapped.message(), PaneCommandError::NoFocusedPane.message());
    assert_eq!(wrapped.source(), Some(PaneCommandError::NoFocusedPane));
    assert_eq!(PaletteInvocationError::PaneNotFound(PaneId::new("x")).source(), None);
}
