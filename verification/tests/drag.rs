use mullion::{ActivityId, DockDrag, DockHover, DropEdge, PaneId};

#[test]
fn payload_accessors_and_self_drop_rules_distinguish_both_operations() {
    let pane = PaneId::new("pane");
    let other = PaneId::new("other");
    let activity = ActivityId::new("activity");
    let moving = DockDrag::pane(pane.clone());
    assert_eq!(moving.payload.pane(), Some(&pane));
    assert_eq!(moving.payload.activity(), None);
    assert!(moving.is_self_drop(&pane));
    assert!(!moving.can_drop_on(&pane));
    assert!(moving.can_drop_on(&other));

    let creating = DockDrag::new_activity(activity.clone());
    assert_eq!(creating.payload.activity(), Some(&activity));
    assert_eq!(creating.payload.pane(), None);
    assert!(!creating.is_self_drop(&pane));
    assert!(creating.can_drop_on(&pane));
    let hover = DockHover { destination: pane, edge: DropEdge::Center };
    assert!(hover.accepts(&creating));
}

#[test]
fn a_pane_hovering_over_itself_is_refused_in_every_zone() {
    let pane = PaneId::new("p");
    let moving = DockDrag::pane(pane.clone());
    for edge in [DropEdge::Left, DropEdge::Right, DropEdge::Top, DropEdge::Bottom, DropEdge::Center] {
        assert!(!DockHover { destination: pane.clone(), edge }.accepts(&moving));
        assert!(DockHover { destination: PaneId::new("q"), edge }.accepts(&moving));
    }
}

#[test]
fn side_bands_take_priority_in_the_corners() {
    assert_eq!(DropEdge::from_bands(true, false, true, false), DropEdge::Left);
    assert_eq!(DropEdge::from_bands(false, true, false, true), DropEdge::Right);
    assert_eq!(DropEdge::from_bands(false, false, true, false), DropEdge::Top);
    assert_eq!(DropEdge::from_bands(false, false, false, true), DropEdge::Bottom);
    assert_eq!(DropEdge::from_bands(false, false, false, false), DropEdge::Center);
}
