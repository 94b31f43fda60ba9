use edge_toggle::handler::{respond, Handler, Response};
use edge_toggle::level::Level;
use edge_toggle::line::{InputLine, OutputLine, Trigger};
use edge_toggle::registry::Registry;

fn stocked() -> Registry<OutputLine, InputLine> {
    let mut registry = Registry::new();
    registry.led.deposit(OutputLine::push_pull(Level::High));
    registry.button.deposit(InputLine::interrupt_source(Trigger::RisingFalling));
    registry
}

#[test]
fn pending_line_is_answered_by_toggle_then_acknowledge() {
    assert_eq!(respond(true), Response::ToggleThenAcknowledge);
}

#[test]
fn line_without_pending_flag_is_ignored() {
    assert_eq!(respond(false), Response::Ignore);
}

#[test]
fn new_handler_needs_binding() {
    let handler: Handler<OutputLine, InputLine> = Handler::new();
    assert!(handler.needs_binding());
    assert!(matches!(handler, Handler::Unbound));
}

#[test]
fn first_bind_takes_both_handles() {
    let mut registry = stocked();
    let mut handler = Handler::new();
    handler.bind(&mut registry);

    assert!(!handler.needs_binding());
    assert!(!registry.led.is_occupied());
    assert!(!registry.button.is_occupied());
    match handler {
        Handler::Bound { led, button } => {
            assert_eq!(led, OutputLine { level: Level::High });
            assert_eq!(button, InputLine { trigger: Trigger::RisingFalling, pending: false });
        }
        Handler::Unbound => panic!("the handler did not take its handles"),
    }
}

#[test]
fn bind_hands_over_the_very_handles_deposited() {
    let mut registry: Registry<u32, u64> = Registry::new();
    registry.led.deposit(5);
    registry.button.deposit(13);
    let mut handler = Handler::new();
    handler.bind(&mut registry);
    assert!(matches!(handler, Handler::Bound { led: 5, button: 13 }));
}

#[test]
fn later_bind_touches_nothing() {
    let mut registry = stocked();
    let mut handler = Handler::new();
    handler.bind(&mut registry);
    if let Handler::Bound { led, .. } = &mut handler {
        led.toggle();
    }

    handler.bind(&mut registry);
    assert!(!registry.is_complete());
    assert!(!registry.led.is_occupied());
    match &handler {
        Handler::Bound { led, button } => {
            assert_eq!(led.level, Level::Low);
            assert!(!button.pending);
        }
        Handler::Unbound => panic!("the handler lost its handles"),
    }
}

#[test]
fn bound_handler_ignores_a_restocked_registry() {
    let mut registry: Registry<u8, u8> = Registry::new();
    registry.led.deposit(1);
    registry.button.deposit(2);
    let mut handler = Handler::new();
    handler.bind(&mut registry);

    registry.led.deposit(3);
    registry.button.deposit(4);
    handler.bind(&mut registry);
    assert!(matches!(handler, Handler::Bound { led: 1, button: 2 }));
    assert_eq!(registry.led.handle, Some(3));
    assert_eq!(registry.button.handle, Some(4));
}
