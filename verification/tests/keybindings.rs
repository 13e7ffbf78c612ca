use mullion::{
    normalize_key, KeyChord, KeySequenceMatch, KeyStroke, MullionKeymap, PaneCommand, PaneDirection,
    SplitDirection,
};

fn sequence(keys: &[&str]) -> Vec<KeyStroke> {
    keys.iter().map(|key| KeyStroke::new(key)).collect()
}

fn stroke(chord: KeyChord) -> KeyStroke {
    KeyStroke {
        key: chord.key,
        control: chord.control,
        alt: chord.alt,
        shift: chord.shift,
        meta: chord.meta,
    }
}

#[test]
fn mullion_default_uses_direct_modifier_combinations() {
    let map = MullionKeymap::default();
    assert_eq!(map.prefix(), None);
    assert_eq!(
        map.match_sequence(&[stroke(KeyChord::new("ArrowLeft").alt())]),
        KeySequenceMatch::Command(PaneCommand::Focus(PaneDirection::Left))
    );
    assert_eq!(
        map.match_sequence(&[stroke(KeyChord::new("ArrowLeft").alt().shift())]),
        KeySequenceMatch::Command(PaneCommand::Move(PaneDirection::Left))
    );
    assert_eq!(
        map.match_sequence(&[stroke(KeyChord::new("ArrowRight").control().alt().shift())]),
        KeySequenceMatch::Command(PaneCommand::Split(SplitDirection::Horizontal))
    );
}

#[test]
fn mullion_default_binds_the_entire_static_command_catalog() {
    let map = MullionKeymap::default();
    for command in PaneCommand::catalog() {
        assert!(
            map.sequence_for(command).is_some(),
            "missing default key sequence for {command:?}"
        );
    }
    for index in 0..9 {
        assert!(map.sequence_for(PaneCommand::FocusIndex(index)).is_some());
    }
}

#[test]
fn tmux_prefix_and_navigation_are_bound() {
    let map = MullionKeymap::tmux();
    assert!(map.prefix().unwrap().matches(&KeyStroke {
        key: "b".into(),
        control: true,
        alt: false,
        shift: false,
        meta: false,
    }));
    assert_eq!(
        map.match_sequence(&sequence(&["h"])),
        KeySequenceMatch::Command(PaneCommand::Focus(PaneDirection::Left))
    );
}

#[test]
fn chords_require_an_exact_modifier_set() {
    let chord = KeyChord::new("ArrowLeft").control();
    let mut stroke = KeyStroke::new("ArrowLeft");
    assert!(!chord.matches(&stroke));
    stroke.control = true;
    assert!(chord.matches(&stroke));
    stroke.shift = true;
    assert!(!chord.matches(&stroke));
}

#[test]
fn space_spellings_match() {
    assert!(KeyChord::new("Space").matches(&KeyStroke::new(" ")));
}

#[test]
fn rebinding_replaces_the_existing_chord() {
    let mut map = MullionKeymap::new(KeyChord::new("b").control());
    map.bind(KeyChord::new("x"), PaneCommand::Close);
    map.bind(KeyChord::new("x"), PaneCommand::ToggleZoom);
    assert_eq!(map.bindings().len(), 1);
    assert_eq!(
        map.match_sequence(&sequence(&["x"])),
        KeySequenceMatch::Command(PaneCommand::ToggleZoom)
    );
}

#[test]
fn rebinding_replaces_only_the_exact_sequence() {
    let mut map = MullionKeymap::new(KeyChord::new("m").control());
    map.bind_sequence(
        vec![KeyChord::new("m"), KeyChord::new("ArrowLeft")],
        PaneCommand::Move(PaneDirection::Left),
    );
    map.bind_sequence(
        vec![KeyChord::new("m"), KeyChord::new("ArrowLeft")],
        PaneCommand::Swap(PaneDirection::Left),
    );
    map.bind(KeyChord::new("m"), PaneCommand::FocusNext);

    assert_eq!(map.bindings().len(), 2);
    assert_eq!(
        map.match_sequence(&sequence(&["m", "ArrowLeft"])),
        KeySequenceMatch::Command(PaneCommand::Swap(PaneDirection::Left))
    );
}

#[test]
fn normalized_sequences_include_custom_prefix_and_multichords() {
    let map = MullionKeymap::new(KeyChord::new("m").control()).with_sequence(
        vec![KeyChord::new("g"), KeyChord::new("ArrowLeft").alt()],
        PaneCommand::FocusFirst,
    );
    assert_eq!(
        map.normalized_sequences(),
        vec![("ctrl-m g alt-left".to_string(), PaneCommand::FocusFirst)]
    );
}

#[test]
fn keys_normalize_case_insensitively_with_space_aliases() {
    assert_eq!(normalize_key("ArrowLeft"), "arrowleft");
    assert_eq!(normalize_key("Spacebar"), "space");
    assert_eq!(normalize_key(" "), "space");
    assert_eq!(normalize_key("ÉCHAP"), "échap");
    assert!(KeyChord::new("x").matches(&KeyStroke::new("X")));
}

#[test]
fn chords_display_and_normalize_with_every_modifier() {
    let chord = KeyChord::new("ArrowLeft").control().alt().shift().meta();
    assert_eq!(chord.normalized(), "ctrl-alt-shift-platform-left");
    assert_eq!(chord.display(), "Ctrl+Alt+Shift+Meta+←");
    assert_eq!(KeyChord::new("q").display(), "Q");
    assert_eq!(KeyChord::new("Escape").display(), "Esc");
    assert_eq!(KeyChord::new(" ").display(), "Space");
}

#[test]
fn pending_and_unbound_sequences_are_classified() {
    let map = MullionKeymap::new(KeyChord::new("m").control()).with_sequence(
        vec![KeyChord::new("g"), KeyChord::new("h")],
        PaneCommand::FocusFirst,
    );
    assert_eq!(map.match_sequence(&sequence(&["g"])), KeySequenceMatch::Pending);
    assert_eq!(map.match_sequence(&sequence(&["z"])), KeySequenceMatch::NoMatch);
    assert_eq!(
        map.match_sequence(&sequence(&["g", "h"])),
        KeySequenceMatch::Command(PaneCommand::FocusFirst)
    );
    assert_eq!(map.match_sequence(&sequence(&["g", "h", "h"])), KeySequenceMatch::NoMatch);
}

#[test]
fn editable_capture_is_explicit() {
    let map = MullionKeymap::default();
    assert!(!map.captures_editable_targets());
    let map = map.capture_editable_targets(true);
    assert!(map.captures_editable_targets());
}

#[test]
fn stored_keymaps_are_rebuilt_exactly() {
    let default = MullionKeymap::default();
    let rebuilt = MullionKeymap::from_parts(
        default.prefix().cloned(),
        default.bindings().to_vec(),
        !default.captures_editable_targets(),
    );
    assert_eq!(rebuilt.bindings(), default.bindings());
    assert_eq!(rebuilt.prefix(), default.prefix());
    let raw = MullionKeymap::from_parts(
        Some(KeyChord::new("b").control()),
        vec![
            mullion::MullionKeyBinding::new(KeyChord::new("x"), PaneCommand::Close),
            mullion::MullionKeyBinding::new(KeyChord::new("x"), PaneCommand::ToggleZoom),
        ],
        false,
    );
    assert_eq!(raw.bindings().len(), 2, "repeated sequences are kept as stored");
    assert!(raw.captures_editable_targets());
}
