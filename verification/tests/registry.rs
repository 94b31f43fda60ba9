use edge_toggle::level::Level;
use edge_toggle::line::{InputLine, OutputLine, Trigger};
use edge_toggle::registry::{Registry, Slot};

#[test]
fn empty_slot_is_not_occupied() {
    let slot: Slot<u32> = Slot::empty();
    assert!(!slot.is_occupied());
    assert_eq!(slot.handle, None);
}

#[test]
fn slot_literal_is_empty() {
    let slot: Slot<u32> = Slot { handle: None };
    assert!(!slot.is_occupied());
}

#[test]
fn deposit_fills_the_slot() {
    let mut slot = Slot::empty();
    slot.deposit(7u32);
    assert!(slot.is_occupied());
    assert_eq!(slot.handle, Some(7));
}

#[test]
fn withdraw_returns_what_was_deposited() {
    let mut slot = Slot::empty();
    slot.deposit(OutputLine::push_pull(Level::High));
    let line = slot.withdraw();
    assert_eq!(line, OutputLine { level: Level::High });
}

#[test]
fn withdraw_leaves_the_slot_empty() {
    let mut slot = Slot::empty();
    slot.deposit(41u8);
    assert_eq!(slot.withdraw(), 41);
    assert!(!slot.is_occupied());
    assert_eq!(slot.handle, None);
}

#[test]
fn deposit_overwrites_the_previous_handle() {
    let mut slot = Slot::empty();
    slot.deposit(1u16);
    slot.deposit(2u16);
    assert_eq!(slot.withdraw(), 2);
    assert!(!slot.is_occupied());
}

#[test]
fn slot_can_be_used_again_after_withdrawal() {
    let mut slot = Slot::empty();
    slot.deposit(10i32);
    assert_eq!(slot.withdraw(), 10);
    slot.deposit(20i32);
    assert!(slot.is_occupied());
    assert_eq!(slot.withdraw(), 20);
}

#[test]
fn slots_of_a_registry_are_independent() {
    let mut registry: Registry<OutputLine, InputLine> = Registry::new();
    assert!(!registry.is_complete());
    assert!(!registry.led.is_occupied());
    assert!(!registry.button.is_occupied());

    registry.led.deposit(OutputLine::push_pull(Level::High));
    assert!(registry.led.is_occupied());
    assert!(!registry.button.is_occupied());
    assert!(!registry.is_complete());

    registry.button.deposit(InputLine::interrupt_source(Trigger::RisingFalling));
    assert!(registry.is_complete());

    let led = registry.led.withdraw();
    assert_eq!(led.level, Level::High);
    assert!(!registry.is_complete());
    assert!(registry.button.is_occupied());
}

#[test]
fn registry_with_only_the_button_is_incomplete() {
    let mut registry: Registry<u8, u8> = Registry::new();
    registry.button.deposit(3);
    assert!(!registry.is_complete());
}
