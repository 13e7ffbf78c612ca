use mullion::{DetachError, DetachedWindowService, PaneId, UnavailableDetachedWindows};

#[test]
fn unavailable_service_is_graceful() {
    assert_eq!(
        UnavailableDetachedWindows.detach(&PaneId::new("pane")),
        Err(DetachError::Unavailable)
    );
}

#[test]
fn detach_errors_explain_themselves() {
    assert_eq!(
        DetachError::Unavailable.message(),
        "detached windows are unavailable on this platform"
    );
    assert_eq!(
        DetachError::Refused("busy".to_string()).message(),
        "detach refused: busy"
    );
}
