use edge_toggle::level::Level;
use edge_toggle::line::Trigger;
use edge_toggle::startup::{Operation, Stage};

#[test]
fn startup_runs_in_order() {
    let expected = [
        (Operation::AcquirePeripherals, Stage::PeripheralsAcquired),
        (Operation::ConfigureOutput { idle: Level::High }, Stage::OutputConfigured),
        (Operation::DepositOutput, Stage::OutputDeposited),
        (Operation::ConfigureInput { trigger: Trigger::RisingFalling }, Stage::InputConfigured),
        (Operation::DepositInput, Stage::InputDeposited),
        (Operation::UnmaskInterrupt, Stage::Running),
    ];
    let mut stage = Stage::Reset;
    for (operation, reached) in expected {
        assert!(!stage.is_running());
        let next = stage.advance();
        assert_eq!(next.0, operation);
        assert_eq!(next.1, reached);
        stage = next.1;
    }
    assert!(stage.is_running());
}

#[test]
fn running_stage_waits_for_ever() {
    let mut stage = Stage::Running;
    for _ in 0..5 {
        let next = stage.advance();
        assert_eq!(next.0, Operation::WaitForInterrupt);
        assert_eq!(next.1, Stage::Running);
        stage = next.1;
    }
}

#[test]
fn output_is_configured_dark() {
    assert_eq!(
        Stage::PeripheralsAcquired.advance().0,
        Operation::ConfigureOutput { idle: Level::High }
    );
}

#[test]
fn input_fires_on_both_edges() {
    assert_eq!(
        Stage::OutputDeposited.advance().0,
        Operation::ConfigureInput { trigger: Trigger::RisingFalling }
    );
}

#[test]
fn unmasking_is_the_last_operation_of_startup() {
    let mut stage = Stage::Reset;
    let mut performed = Vec::new();
    while !stage.is_running() {
        let next = stage.advance();
        performed.push(next.0);
        stage = next.1;
    }
    assert_eq!(performed.len(), 6);
    assert_eq!(performed[5], Operation::UnmaskInterrupt);
    let unmask = performed.iter().position(|op| *op == Operation::UnmaskInterrupt);
    let led = performed.iter().position(|op| *op == Operation::DepositOutput);
    let button = performed.iter().position(|op| *op == Operation::DepositInput);
    assert_eq!(unmask, Some(5));
    assert_eq!(led, Some(2));
    assert_eq!(button, Some(4));
}

#[test]
fn only_the_last_stage_is_running() {
    assert!(!Stage::Reset.is_running());
    assert!(!Stage::PeripheralsAcquired.is_running());
    assert!(!Stage::OutputConfigured.is_running());
    assert!(!Stage::OutputDeposited.is_running());
    assert!(!Stage::InputConfigured.is_running());
    assert!(!Stage::InputDeposited.is_running());
    assert!(Stage::Running.is_running());
}
