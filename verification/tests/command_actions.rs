use std::collections::HashSet;

use mullion::{
    action_for_command, action_reference_id, command_for_action, compile_keymap, MullionAction,
    MullionKeymap, PaneCommand, MULLION_KEY_CONTEXT,
};

#[test]
fn every_static_command_has_one_distinct_round_tripping_action() {
    let catalog = PaneCommand::catalog();
    assert_eq!(catalog.len(), 37);
    let mut action_names = HashSet::new();
    for command in catalog {
        let action = action_for_command(command);
        assert_eq!(command_for_action(action), command);
        assert!(action_names.insert(action.name()), "duplicate action for {command:?}");
        assert_eq!(action_reference_id(command), command.id());
    }
    assert_eq!(action_names.len(), 37);
}

#[test]
fn dynamic_focus_action_round_trips() {
    let command = PaneCommand::FocusIndex(41);
    let action = action_for_command(command);
    assert_eq!(command_for_action(action), command);
}

#[test]
fn direct_and_tmux_bindings_all_compile_and_round_trip() {
    for map in [MullionKeymap::mullion(), MullionKeymap::tmux()] {
        let expected = map.normalized_sequences();
        let compiled = compile_keymap(&map, MULLION_KEY_CONTEXT);
        assert_eq!(compiled.bindings.len(), expected.len());
        for ((sequence, action), (expected_sequence, command)) in compiled.bindings.iter().zip(expected) {
            assert_eq!(command_for_action(*action), command);
            assert_eq!(sequence, &expected_sequence);
        }
        assert!(!compiled.context.is_empty());
    }
}

#[test]
fn editable_context_is_suppressed_unless_capture_is_explicit() {
    let suppressed = compile_keymap(&MullionKeymap::mullion(), MULLION_KEY_CONTEXT).context;
    let captured = compile_keymap(
        &MullionKeymap::mullion().capture_editable_targets(true),
        MULLION_KEY_CONTEXT,
    )
    .context;
    assert!(suppressed.contains("Mullion"));
    assert!(suppressed.contains("MullionEditable"));
    assert!(suppressed.contains('!'));
    assert_eq!(captured, MULLION_KEY_CONTEXT);
}

#[test]
fn action_names_live_in_the_mullion_namespace() {
    assert_eq!(action_for_command(PaneCommand::Close).name(), "mullion::ClosePane");
    assert_eq!(action_for_command(PaneCommand::FocusIndex(3)).name(), "mullion::FocusPane");
    assert_eq!(
        action_for_command(PaneCommand::FocusIndex(3)),
        MullionAction::FocusPane(mullion::FocusPane { index: 3 })
    );
    assert_eq!(
        compile_keymap(&MullionKeymap::mullion(), "Pane").context,
        "(Pane) && !MullionEditable"
    );
}
