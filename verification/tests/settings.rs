use mullion::{
    focus_behavior_options, focus_behavior_setting_description, focus_behavior_setting_label,
    MullionSettingOption, MullionSettingsConfig, MullionThemeMode, PaneFocusBehavior,
    FOCUS_BEHAVIOR_SETTING_ID,
};

#[test]
fn focus_behavior_descriptor_metadata_and_options_are_stable() {
    assert_eq!(FOCUS_BEHAVIOR_SETTING_ID, "mullion.focus_behavior");
    assert_eq!(focus_behavior_setting_label(), "Pane focus behavior");
    assert!(!focus_behavior_setting_description().is_empty());
    let options = focus_behavior_options();
    assert_eq!(
        options.iter().map(|o| (*o.value(), o.label())).collect::<Vec<_>>(),
        vec![(PaneFocusBehavior::Click, "Click"), (PaneFocusBehavior::Hover, "Hover")]
    );
    assert!(options.iter().all(|o| !o.description().is_empty()));
}

#[test]
fn setting_options_keep_their_metadata() {
    let option = MullionSettingOption::new(7u8, "Seven", "The number seven.");
    assert_eq!(*option.value(), 7);
    assert_eq!(option.label(), "Seven");
    assert_eq!(option.description(), "The number seven.");
}

#[test]
fn settings_config_defaults_to_hover_focus() {
    assert_eq!(MullionSettingsConfig::default().focus_behavior, PaneFocusBehavior::Hover);
}

#[test]
fn theme_mode_defaults_to_the_system_appearance() {
    assert_eq!(MullionThemeMode::default(), MullionThemeMode::System);
    assert!(MullionThemeMode::System.uses_light_palette(true));
    assert!(!MullionThemeMode::System.uses_light_palette(false));
    assert!(MullionThemeMode::Light.uses_light_palette(false));
    assert!(!MullionThemeMode::Dark.uses_light_palette(true));
}
