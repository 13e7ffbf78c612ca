use mullion::PaneFocusBehavior;

#[test]
fn hover_is_the_compatibility_default() {
    assert_eq!(PaneFocusBehavior::default(), PaneFocusBehavior::Hover);
}
