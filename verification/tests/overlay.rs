use mullion::{
    check_policy, OverlayEntry, OverlayError, OverlayId, OverlayMutation, OverlayStack, OverlayTier,
};

fn overlay(id: &str, tier: OverlayTier) -> OverlayEntry<()> {
    OverlayEntry { id: OverlayId::new(id), tier, check: Ok(()), content: () }
}

#[test]
fn tier_order_is_explicit_and_snapshot_is_stable() {
    assert!(OverlayTier::Modal.z_order() < OverlayTier::Toast.z_order());
    assert!(OverlayTier::Toast.z_order() < OverlayTier::Drag.z_order());

    let stack = OverlayStack::from_overlays(vec![
        overlay("drag", OverlayTier::Drag),
        overlay("modal-a", OverlayTier::Modal),
        overlay("toast", OverlayTier::Toast),
        overlay("modal-b", OverlayTier::Modal),
    ])
    .unwrap();
    let ids: Vec<_> = stack
        .sorted_render_snapshot()
        .iter()
        .map(|item| item.id.as_str().to_owned())
        .collect();
    assert_eq!(ids, ["modal-a", "modal-b", "toast", "drag"]);
}

#[test]
fn duplicate_ids_are_rejected() {
    let result = OverlayStack::from_overlays(vec![
        overlay("same", OverlayTier::Modal),
        overlay("same", OverlayTier::Toast),
    ]);
    assert_eq!(result.err().unwrap(), OverlayError::DuplicateId(OverlayId::new("same")));
}

#[test]
fn mutations_are_ordered_and_atomic() {
    let mut stack = OverlayStack::from_overlays(vec![
        overlay("first", OverlayTier::Modal),
        overlay("second", OverlayTier::Modal),
    ])
    .unwrap();

    let result = stack.apply_atomic(vec![
        OverlayMutation::Remove(OverlayId::new("first")),
        OverlayMutation::Push(overlay("third", OverlayTier::Toast)),
        OverlayMutation::Push(overlay("second", OverlayTier::Drag)),
    ]);
    assert_eq!(result.unwrap_err(), OverlayError::DuplicateId(OverlayId::new("second")));
    let ids: Vec<_> = stack.insertion_order().iter().map(|item| item.id.as_str()).collect();
    assert_eq!(ids, ["first", "second"]);
}

#[test]
fn policy_validation_rejects_incoherent_interaction() {
    assert_eq!(
        check_policy(&OverlayId::new("bad"), Ok(()), false, true, false, false, &None).unwrap_err(),
        OverlayError::DismissWithoutBackdrop(OverlayId::new("bad"))
    );
    assert_eq!(
        check_policy(&OverlayId::new("bad-modal"), Ok(()), false, false, true, true, &None).unwrap_err(),
        OverlayError::ClickThroughModal(OverlayId::new("bad-modal"))
    );
}

#[test]
fn policy_rules_apply_in_order_after_geometry() {
    assert_eq!(
        check_policy(&OverlayId::new(""), Err(OverlayError::InvalidBackdrop), false, true, true, true, &None),
        Err(OverlayError::EmptyId)
    );
    assert_eq!(
        check_policy(&OverlayId::new("g"), Err(OverlayError::InvalidBackdrop), false, true, false, false, &None),
        Err(OverlayError::InvalidBackdrop)
    );
    assert_eq!(
        check_policy(&OverlayId::new("c"), Ok(()), true, true, true, false, &None),
        Err(OverlayError::ClickThroughDismiss(OverlayId::new("c")))
    );
    assert_eq!(
        check_policy(&OverlayId::new("l"), Ok(()), true, false, false, true, &Some(String::new())),
        Err(OverlayError::EmptyA11yLabel(OverlayId::new("l")))
    );
    assert_eq!(
        check_policy(&OverlayId::new("ok"), Ok(()), true, true, false, true, &Some("Save".to_string())),
        Ok(())
    );
}

#[test]
fn every_mutation_kind_applies_in_order_or_not_at_all() {
    let mut stack = OverlayStack::new();
    assert!(stack.is_empty());
    stack.push(overlay("a", OverlayTier::Toast)).unwrap();
    stack.push(overlay("b", OverlayTier::Modal)).unwrap();
    stack
        .apply_atomic(vec![
            OverlayMutation::MoveToFront(OverlayId::new("a")),
            OverlayMutation::Replace(overlay("b", OverlayTier::Drag)),
            OverlayMutation::Push(overlay("c", OverlayTier::Modal)),
        ])
        .unwrap();
    let ids: Vec<_> = stack.insertion_order().iter().map(|item| item.id.as_str()).collect();
    assert_eq!(ids, ["b", "a", "c"]);
    assert_eq!(stack.get(&OverlayId::new("b")).unwrap().tier, OverlayTier::Drag);
    assert_eq!(
        stack.remove(OverlayId::new("zzz")),
        Err(OverlayError::UnknownId(OverlayId::new("zzz")))
    );
    assert_eq!(stack.len(), 3);
    stack.apply_atomic(vec![OverlayMutation::Clear]).unwrap();
    assert!(stack.is_empty());
    let invalid = OverlayEntry { check: Err(OverlayError::InvalidBackdrop), ..overlay("x", OverlayTier::Modal) };
    assert_eq!(stack.push(invalid), Err(OverlayError::InvalidBackdrop));
    assert!(stack.is_empty());
}

#[test]
fn overlay_errors_describe_themselves() {
    assert_eq!(OverlayError::EmptyId.message(), "overlay id must not be empty");
    assert_eq!(OverlayError::DuplicateId(OverlayId::new("d")).message(), "duplicate overlay id `d`");
    assert_eq!(
        OverlayError::InvalidDimension { field: "width", value: "1.5".to_string() }.message(),
        "invalid overlay width dimension `1.5`"
    );
    assert_eq!(
        OverlayError::ClickThroughModal(OverlayId::new("m")).message(),
        "accessible modal `m` cannot be click-through"
    );
}

#[test]
fn checked_entries_carry_the_policy_verdict() {
    let bad = OverlayEntry::checked(
        OverlayId::new("bad"), OverlayTier::Modal, Ok(()), false, true, false, false, &None, 0u8,
    );
    assert_eq!(bad.check, Err(OverlayError::DismissWithoutBackdrop(OverlayId::new("bad"))));
    let mut stack = OverlayStack::new();
    assert_eq!(stack.push(bad), Err(OverlayError::DismissWithoutBackdrop(OverlayId::new("bad"))));
    let good = OverlayEntry::checked(
        OverlayId::new("ok"), OverlayTier::Toast, Ok(()), true, true, false, true, &Some("Save".to_string()), 7u8,
    );
    assert_eq!(good.check, Ok(()));
    assert_eq!(good.content, 7);
    assert_eq!(stack.push(good), Ok(()));
}
