use mullion::{
    layout_label, layout_slug, pane_direction_label, pane_direction_slug, split_direction_slug,
    PaneCommand, PaneCommandError, PaneCommandGroup, PaneDirection, PaneLayout, PaneRotation,
    SplitDirection,
};

#[test]
fn catalog_holds_every_static_command_once_with_unique_ids() {
    let catalog = PaneCommand::catalog();
    assert_eq!(catalog.len(), 37);
    let mut ids: Vec<String> = catalog.iter().map(|c| c.id()).collect();
    ids.sort();
    ids.dedup();
    assert_eq!(ids.len(), 37);
    assert!(catalog.iter().all(|c| !matches!(c, PaneCommand::FocusIndex(_))));
    assert_eq!(catalog[0], PaneCommand::Focus(PaneDirection::Left));
    assert_eq!(catalog[36], PaneCommand::ToggleZoom);
}

#[test]
fn command_metadata_is_exact() {
    assert_eq!(PaneCommand::Focus(PaneDirection::Up).id(), "mullion.focus.up");
    assert_eq!(PaneCommand::Focus(PaneDirection::Up).name(), "Focus Pane Up");
    assert_eq!(PaneCommand::FocusIndex(3).id(), "mullion.focus.index.3");
    assert_eq!(PaneCommand::FocusIndex(3).name(), "Focus Pane 4");
    assert_eq!(PaneCommand::FocusIndex(41).id(), "mullion.focus.index.41");
    assert_eq!(PaneCommand::Split(SplitDirection::Horizontal).name(), "Split Pane Left/Right");
    assert_eq!(PaneCommand::ApplyLayout(PaneLayout::MainVertical).name(), "Apply Main Vertical Layout");
    assert_eq!(PaneCommand::ApplyLayout(PaneLayout::MainVertical).id(), "mullion.layout.main-vertical");
    assert_eq!(PaneCommand::Rotate(PaneRotation::Backward).id(), "mullion.rotate.backward");
    assert_eq!(PaneCommand::Resize(PaneDirection::Down).group(), PaneCommandGroup::Resize);
    assert_eq!(PaneCommand::ToggleZoom.group().label(), "Mullion · View");
    assert_eq!(PaneCommand::Close.description(), "Close the focused pane and focus an adjacent pane");
    assert_eq!(pane_direction_slug(PaneDirection::Left), "left");
    assert_eq!(pane_direction_label(PaneDirection::Right), "Right");
    assert_eq!(split_direction_slug(SplitDirection::Vertical), "vertical");
    assert_eq!(layout_slug(PaneLayout::EvenHorizontal), "even-horizontal");
    assert_eq!(layout_label(PaneLayout::Tiled), "Tiled");
}

#[test]
fn command_errors_describe_themselves() {
    assert_eq!(PaneCommandError::NoFocusedPane.message(), "the layout has no focused pane");
    assert_eq!(PaneCommandError::CannotCloseLastPane.message(), "the last pane cannot be closed");
    assert_eq!(PaneCommandError::InvalidPaneIndex.message(), "there is no pane at that index");
}
