use apothekensoft_lib::inject::{advance_injection, begin_injection, InjectAction, InjectPhase, SETTLE_DELAY_MS};
use apothekensoft_lib::keys::{GenericKey, KeySymbol};

#[test]
fn injecting_q_presses_waits_and_releases() {
    let (phase, action) = begin_injection("q");
    assert_eq!(phase, InjectPhase::Pressing(KeySymbol::KeyQ));
    assert!(matches!(action, InjectAction::Press(GenericKey::KeyQ)));
    let (phase, action) = advance_injection(phase, Ok(()));
    assert_eq!(phase, InjectPhase::Settling(KeySymbol::KeyQ));
    assert!(matches!(action, InjectAction::Sleep(ms) if ms >= 100));
    assert_eq!(SETTLE_DELAY_MS, 100);
    let (phase, action) = advance_injection(phase, Ok(()));
    assert_eq!(phase, InjectPhase::Releasing(KeySymbol::KeyQ));
    assert!(matches!(action, InjectAction::Release(GenericKey::KeyQ)));
    let (phase, action) = advance_injection(phase, Ok(()));
    assert_eq!(phase, InjectPhase::Finished);
    assert!(matches!(action, InjectAction::Finish(Ok(()))));
}

#[test]
fn injecting_an_unknown_name_fails_before_any_press() {
    let (phase, action) = begin_injection("not-a-real-key");
    assert_eq!(phase, InjectPhase::Finished);
    match action {
        InjectAction::Finish(Err(e)) => assert_eq!(e, "invalid key: not-a-real-key"),
        _ => panic!("expected the invalid-key error"),
    }
}

#[test]
fn injecting_the_empty_name_fails() {
    let (phase, action) = begin_injection("");
    assert_eq!(phase, InjectPhase::Finished);
    match action {
        InjectAction::Finish(Err(e)) => assert_eq!(e, "invalid key: "),
        _ => panic!("expected the invalid-key error"),
    }
}

#[test]
fn failed_press_ends_without_release() {
    let (phase, _) = begin_injection("Enter");
    assert_eq!(phase, InjectPhase::Pressing(KeySymbol::Return));
    let (phase, action) = advance_injection(phase, Err("SimulateError".to_string()));
    assert_eq!(phase, InjectPhase::Finished);
    match action {
        InjectAction::Finish(Err(e)) => assert_eq!(e, "Failed to simulate key: SimulateError"),
        _ => panic!("expected the simulate error"),
    }
}

#[test]
fn failed_release_reports_the_failure() {
    let (phase, action) = advance_injection(InjectPhase::Releasing(KeySymbol::AltRight), Err("denied".to_string()));
    assert_eq!(phase, InjectPhase::Finished);
    match action {
        InjectAction::Finish(Err(e)) => assert_eq!(e, "Failed to simulate key: denied"),
        _ => panic!("expected the simulate error"),
    }
}

#[test]
fn settle_step_releases_whatever_was_reported() {
    let (phase, action) = advance_injection(InjectPhase::Settling(KeySymbol::AltRight), Err("ignored".to_string()));
    assert_eq!(phase, InjectPhase::Releasing(KeySymbol::AltRight));
    assert!(matches!(action, InjectAction::Release(GenericKey::AltGr)));
}
