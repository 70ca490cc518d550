use negl_core::command::{IndicatorCommand, Pattern};
use negl_core::gate::ChangeGate;

const RED: IndicatorCommand = IndicatorCommand::Start(Pattern::SolidColor(10, 0, 0));

#[test]
fn first_offer_emits_even_reset() {
    let mut gate = ChangeGate::new();
    assert_eq!(gate.last_emitted, None);
    assert!(gate.accept(IndicatorCommand::Reset));
    assert_eq!(gate.last_emitted, Some(IndicatorCommand::Reset));
}

#[test]
fn first_offer_emits_start() {
    let mut gate = ChangeGate::new();
    assert!(gate.accept(RED));
    assert_eq!(gate.last_emitted, Some(RED));
}

#[test]
fn repeated_command_is_suppressed_and_state_kept() {
    let mut gate = ChangeGate::new();
    assert!(gate.accept(RED));
    for _ in 0..5 {
        assert!(!gate.accept(RED));
        assert_eq!(gate.last_emitted, Some(RED));
    }
}

#[test]
fn changed_command_emits_again() {
    let mut gate = ChangeGate::new();
    assert!(gate.accept(RED));
    assert!(!gate.accept(RED));
    assert!(gate.accept(IndicatorCommand::Reset));
    assert_eq!(gate.last_emitted, Some(IndicatorCommand::Reset));
    assert!(gate.accept(RED));
}

#[test]
fn different_patterns_are_unequal_commands() {
    let mut gate = ChangeGate::new();
    assert!(gate.accept(IndicatorCommand::Start(Pattern::SolidColor(0, 0, 10))));
    assert!(gate.accept(IndicatorCommand::Start(Pattern::SolidColor(0, 10, 0))));
}
