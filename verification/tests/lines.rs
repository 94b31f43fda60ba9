use edge_toggle::level::Level;
use edge_toggle::line::{Edge, InputLine, OutputLine, Trigger, LED_OFF, LED_ON};

#[test]
fn toggled_level_is_the_other_one() {
    assert_eq!(Level::Low.toggled(), Level::High);
    assert_eq!(Level::High.toggled(), Level::Low);
}

#[test]
fn toggling_twice_restores_the_level() {
    assert_eq!(Level::Low.toggled().toggled(), Level::Low);
    assert_eq!(Level::High.toggled().toggled(), Level::High);
}

#[test]
fn led_is_dark_on_a_high_line() {
    assert_eq!(LED_OFF, Level::High);
    assert_eq!(LED_ON, Level::Low);
    assert_eq!(LED_OFF.toggled(), LED_ON);
}

#[test]
fn trigger_selects_its_edges() {
    assert!(Trigger::Rising.senses(Edge::Rising));
    assert!(!Trigger::Rising.senses(Edge::Falling));
    assert!(!Trigger::Falling.senses(Edge::Rising));
    assert!(Trigger::Falling.senses(Edge::Falling));
    assert!(Trigger::RisingFalling.senses(Edge::Rising));
    assert!(Trigger::RisingFalling.senses(Edge::Falling));
}

#[test]
fn output_line_starts_at_the_given_level() {
    assert_eq!(OutputLine::push_pull(Level::High).level, Level::High);
    assert_eq!(OutputLine::push_pull(Level::Low).level, Level::Low);
}

#[test]
fn output_line_toggles() {
    let mut line = OutputLine::push_pull(Level::High);
    line.toggle();
    assert_eq!(line.level, Level::Low);
    line.toggle();
    assert_eq!(line.level, Level::High);
}

#[test]
fn input_line_starts_with_nothing_pending() {
    let line = InputLine::interrupt_source(Trigger::RisingFalling);
    assert_eq!(line.trigger, Trigger::RisingFalling);
    assert!(!line.check_interrupt());
}

#[test]
fn input_line_latches_selected_edges_only() {
    let mut line = InputLine::interrupt_source(Trigger::Rising);
    line.sense(Edge::Falling);
    assert!(!line.check_interrupt());
    line.sense(Edge::Rising);
    assert!(line.check_interrupt());
    line.sense(Edge::Falling);
    assert!(line.check_interrupt());
    assert_eq!(line.trigger, Trigger::Rising);
}

#[test]
fn input_line_on_both_edges_latches_either() {
    let mut rising = InputLine::interrupt_source(Trigger::RisingFalling);
    rising.sense(Edge::Rising);
    assert!(rising.check_interrupt());

    let mut falling = InputLine::interrupt_source(Trigger::RisingFalling);
    falling.sense(Edge::Falling);
    assert!(falling.check_interrupt());
}

#[test]
fn clearing_resets_the_pending_flag() {
    let mut line = InputLine::interrupt_source(Trigger::Falling);
    line.sense(Edge::Falling);
    assert!(line.check_interrupt());
    line.clear_interrupt_pending_bit();
    assert!(!line.check_interrupt());
    assert_eq!(line.trigger, Trigger::Falling);
    line.clear_interrupt_pending_bit();
    assert!(!line.check_interrupt());
}
