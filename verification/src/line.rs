//! The two lines of the board as the firmware sees them: what a handle lets
//! its holder read and change, held as plain values.
//!
//! On the target a handle reaches registers; here it carries the state of
//! its line, so that whoever holds the handle holds the line.

use vstd::prelude::*;
use crate::level::Level;

verus! {

/// The level at which the LED is dark. The LED sits between the supply and
/// the pin, so a high line leaves no voltage across it.
pub const LED_OFF: Level = Level::High;

/// The level at which the LED is lit.
pub const LED_ON: Level = Level::Low;

/// A change of level on the input line.
#[derive(Clone, Copy, Debug, PartialEq, Eq, Structural)]
pub enum Edge {
    Rising,
    Falling,
}

/// The edges on which an input line raises its interrupt.
#[derive(Clone, Copy, Debug, PartialEq, Eq, Structural)]
pub enum Trigger {
    Rising,
    Falling,
    RisingFalling,
}

impl Trigger {
    /// Whether `edge` is one of the edges that the trigger selects.
    pub open spec fn selects(self, edge: Edge) -> bool {
        match self {
            Trigger::Rising => edge is Rising,
            Trigger::Falling => edge is Falling,
            Trigger::RisingFalling => true,
        }
    }

    /// Whether `edge` is one of the edges that the trigger selects.
    pub fn senses(self, edge: Edge) -> (sensed: bool)
        ensures
            sensed == self.selects(edge),
    {
        match self {
            Trigger::Rising => edge == Edge::Rising,
            Trigger::Falling => edge == Edge::Falling,
            Trigger::RisingFalling => true,
        }
    }
}

/// The handle of a push-pull output line: the level it drives.
///
/// A handle stands for exclusive control of its line, so it cannot be cloned.
#[derive(Debug, PartialEq, Eq, Structural)]
pub struct OutputLine {
    pub level: Level,
}

impl OutputLine {
    /// A line configured for push-pull drive and set to `level`.
    pub fn push_pull(level: Level) -> (line: Self)
        ensures
            line.level == level,
    {
        OutputLine { level }
    }

    /// Drives the other level.
    pub fn toggle(&mut self)
        ensures
            final(self).level == old(self).level.inverse(),
    {
        self.level = self.level.toggled();
    }
}

/// The handle of a floating input line that raises an interrupt: the edges
/// it is sensitive to and its interrupt-pending flag.
///
/// A handle stands for exclusive control of its line, so it cannot be cloned.
#[derive(Debug, PartialEq, Eq, Structural)]
pub struct InputLine {
    pub trigger: Trigger,
    pub pending: bool,
}

impl InputLine {
    /// A line configured as a floating input and as an interrupt source that
    /// fires on `trigger`, with nothing pending yet.
    pub fn interrupt_source(trigger: Trigger) -> (line: Self)
        ensures
            line.trigger == trigger,
            !line.pending,
    {
        InputLine { trigger, pending: false }
    }

    /// What the hardware does on an edge: the pending flag is latched if the
    /// trigger selects the edge, and stays as it was otherwise.
    pub fn sense(&mut self, edge: Edge)
        ensures
            final(self).trigger == old(self).trigger,
            final(self).pending == (old(self).pending || old(self).trigger.selects(edge)),
    {
        if self.trigger.senses(edge) {
            self.pending = true;
        }
    }

    /// Reads the pending flag of this line.
    pub fn check_interrupt(&self) -> (pending: bool)
        ensures
            pending == self.pending,
    {
        self.pending
    }

    /// Clears the pending flag of this line.
    pub fn clear_interrupt_pending_bit(&mut self)
        ensures
            final(self).trigger == old(self).trigger,
            !final(self).pending,
    {
        self.pending = false;
    }
}

} // verus!
