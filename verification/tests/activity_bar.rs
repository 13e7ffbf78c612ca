use mullion::{
    chevron_rotation, ActivityBarAxis, ActivityBarConfig, ActivityBarEdge, ActivityBarHoverIntent,
    ActivityBarHoverState, ActivityBarMode, ActivityExpansionState, CategoryId, PaneControl, PaneId,
};

#[test]
fn every_edge_maps_to_the_expected_axis_and_side() {
    assert_eq!(ActivityBarEdge::Left.axis(), ActivityBarAxis::Vertical);
    assert_eq!(ActivityBarEdge::Right.axis(), ActivityBarAxis::Vertical);
    assert_eq!(ActivityBarEdge::Top.axis(), ActivityBarAxis::Horizontal);
    assert_eq!(ActivityBarEdge::Bottom.axis(), ActivityBarAxis::Horizontal);
    assert!(!ActivityBarEdge::Left.is_trailing());
    assert!(ActivityBarEdge::Right.is_trailing());
    assert!(!ActivityBarEdge::Top.is_trailing());
    assert!(ActivityBarEdge::Bottom.is_trailing());
    assert_eq!(ActivityBarEdge::Left.opposite(), ActivityBarEdge::Right);
    assert_eq!(ActivityBarEdge::Top.opposite(), ActivityBarEdge::Bottom);
}

#[test]
fn expansion_reveals_active_path_without_forgetting_manual_state() {
    let mut state = ActivityExpansionState::default();
    assert!(state.toggle(CategoryId::new("manual")));
    let active = vec![CategoryId::new("outer"), CategoryId::new("inner")];
    state.reveal_active(&active);
    assert!(state.is_expanded(&CategoryId::new("manual")));
    assert!(state.is_expanded(&CategoryId::new("outer")));
    assert!(state.is_expanded(&CategoryId::new("inner")));
    assert!(!state.toggle(CategoryId::new("outer")));
}

#[test]
fn stale_hover_generations_cannot_reopen_after_leave_or_reentry() {
    let mut hover = ActivityBarHoverState::default();
    let first = hover.enter();
    hover.leave();
    assert!(!hover.apply_open(first));
    assert!(!hover.is_expanded());

    let old = hover.enter();
    let current = hover.enter();
    assert!(!hover.apply_open(old));
    assert!(hover.apply_open(current));
    assert!(hover.is_hovered());
    assert!(hover.is_expanded());
    hover.leave();
    assert!(!hover.is_expanded(), "leave is intentionally zero-delay");
}

#[test]
fn chevron_rotation_states_match_each_edge() {
    for edge in [ActivityBarEdge::Left, ActivityBarEdge::Right] {
        assert_eq!(chevron_rotation(edge, false), 0);
        assert_eq!(chevron_rotation(edge, true), 90);
    }
    for edge in [ActivityBarEdge::Top, ActivityBarEdge::Bottom] {
        assert_eq!(chevron_rotation(edge, false), 0);
        assert_eq!(chevron_rotation(edge, true), 180);
    }
}

#[test]
fn config_defaults_are_pinned_left_with_hover_expand() {
    let default = ActivityBarConfig::default();
    assert_eq!(default.edge, ActivityBarEdge::Left);
    assert_eq!(default.mode, ActivityBarMode::Pinned);
    assert!(default.behavior.hover_expand);
    assert_eq!(default.behavior.hover_intent.expand_delay_ms, 0);
    assert_eq!(default.behavior.hover_intent.transition_duration_ms, 150);
    let intent = ActivityBarHoverIntent::default()
        .with_expand_delay_ms(175)
        .with_transition_duration_ms(240);
    assert_eq!(intent.expand_delay_ms, 175);
    assert_eq!(intent.transition_duration_ms, 240);
}

#[test]
fn toggling_a_category_twice_restores_the_expansion_set() {
    let mut state = ActivityExpansionState::default();
    state.reveal_active(&vec![CategoryId::new("outer")]);
    assert!(state.toggle(CategoryId::new("x")));
    assert!(!state.toggle(CategoryId::new("x")));
    assert!(!state.is_expanded(&CategoryId::new("x")));
    assert!(state.is_expanded(&CategoryId::new("outer")));
    assert_eq!(state.expanded().len(), 1);
    state.reveal_active(&vec![CategoryId::new("outer"), CategoryId::new("outer")]);
    assert_eq!(state.expanded().len(), 1);
    state.clear();
    assert!(state.expanded().is_empty());
    assert!(!state.is_expanded(&CategoryId::new("outer")));
}

#[test]
fn hover_token_issued_before_leave_stays_stale_after_reentry() {
    let mut hover = ActivityBarHoverState::default();
    let before = hover.enter();
    hover.leave();
    let after = hover.enter();
    assert!(!hover.apply_open(before));
    assert!(!hover.is_expanded());
    assert!(hover.apply_open(after));
    assert_ne!(before, after);
}

#[test]
fn edges_are_their_own_opposites_twice() {
    for edge in [ActivityBarEdge::Left, ActivityBarEdge::Right, ActivityBarEdge::Top, ActivityBarEdge::Bottom] {
        assert_eq!(edge.opposite().opposite(), edge);
        assert_eq!(edge.opposite().axis(), edge.axis());
        assert_ne!(edge.opposite().is_trailing(), edge.is_trailing());
        assert_eq!(edge.is_horizontal(), edge.axis() == ActivityBarAxis::Horizontal);
    }
}

#[test]
fn pane_controls_have_stable_keys_and_identities() {
    let order = PaneControl::order();
    let keys: Vec<&str> = order.iter().map(|c| c.key()).collect();
    assert_eq!(keys.len(), 4);
    let pane = PaneId::new("main");
    for control in order {
        let selector = control.debug_selector(&pane);
        assert!(selector.contains(control.key()));
        assert!(selector.contains("main"));
        assert!(control.accessibility_id(&pane).contains("main"));
        assert!(!control.label().is_empty());
    }
}
