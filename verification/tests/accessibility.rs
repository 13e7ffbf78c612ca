use mullion::{
    ActivityId, CategoryId, DropEdge, SplitDirection, MullionAccessibilityNode, MullionAccessibilityRole,
    MullionAccessibilityState, PaneId, WorkspaceId,
};

#[test]
fn adapters_produce_role_labels_and_state_descriptions() {
    let pane = MullionAccessibilityNode::pane(&PaneId::new("main"), 0, 3, Some("Meters"), true, true);
    assert_eq!(pane.label, "Pane 1 of 3");
    assert_eq!(pane.description, "Meters in pane main, zoomed");
    assert_eq!(pane.state_description(), "focused, active");

    let category = MullionAccessibilityNode::category(&CategoryId::new("media"), "Media", false);
    assert_eq!(category.label, "Media activities");
    assert_eq!(category.state_description(), "collapsed");

    let drop = MullionAccessibilityNode::drop_target(DropEdge::Left, true);
    assert_eq!(drop.label, "Dock at left");
    assert_eq!(drop.state_description(), "active");
}

#[test]
fn state_descriptions_list_each_set_flag_in_order() {
    assert_eq!(MullionAccessibilityState::default().description(), "available");
    let all = MullionAccessibilityState {
        focused: true,
        selected: true,
        expanded: Some(true),
        active: true,
        disabled: true,
    };
    assert_eq!(all.description(), "focused, selected, expanded, active, disabled");
    let collapsed = MullionAccessibilityState { expanded: Some(false), ..Default::default() };
    assert_eq!(collapsed.description(), "collapsed");
}

#[test]
fn remaining_adapters_name_their_targets() {
    let activity = MullionAccessibilityNode::activity(&ActivityId::new("logs"), "Logs", true);
    assert_eq!(activity.role, MullionAccessibilityRole::Activity);
    assert_eq!(activity.label, "Logs");
    assert_eq!(activity.state_description(), "selected");

    let close = MullionAccessibilityNode::close_pane(&PaneId::new("main"));
    assert_eq!(close.role, MullionAccessibilityRole::CloseButton);
    assert_eq!(close.label, "Close pane main");
    let handle = MullionAccessibilityNode::drag_handle(&PaneId::new("main"));
    assert_eq!(handle.role, MullionAccessibilityRole::DragHandle);
    assert_eq!(handle.label, "Move pane main");
    let center = MullionAccessibilityNode::drop_target(DropEdge::Center, false);
    assert_eq!(center.description, "Move into this pane");
    assert_eq!(center.state_description(), "available");

    let workspace = MullionAccessibilityNode::workspace(&WorkspaceId::new("w"), "Mixing", 1, 2, true);
    assert_eq!(workspace.role, MullionAccessibilityRole::Workspace);
    assert_eq!(workspace.label, "Mixing");
    assert_eq!(workspace.description, "Workspace 2 of 2");
    assert_eq!(workspace.state_description(), "selected, active");
}

#[test]
fn split_handles_announce_axis_and_percent() {
    let split = MullionAccessibilityNode::split(SplitDirection::Horizontal, 50, false);
    assert_eq!(split.label, "Resize horizontal pane split");
    assert_eq!(split.description, "First pane group uses 50 percent");
    assert_eq!(split.role, MullionAccessibilityRole::SplitHandle);
    let vertical = MullionAccessibilityNode::split(SplitDirection::Vertical, 100, true);
    assert_eq!(vertical.label, "Resize vertical pane split");
    assert_eq!(vertical.description, "First pane group uses 100 percent");
    assert_eq!(vertical.state_description(), "disabled");
}
