//! The startup sequence: which operation the foreground routine performs
//! next, and with which settings.
//!
//! The sequencer decides; its caller performs each operation on the hardware
//! and asks again. The order matters in one place above all: the interrupt is
//! unmasked last, once both handles lie in the registry, so that the handler
//! can never look for a handle that has not been deposited yet.

use vstd::prelude::*;
use crate::level::Level;
use crate::line::{Trigger, LED_OFF};

verus! {

/// One operation of the foreground routine.
#[derive(Clone, Copy, Debug, PartialEq, Eq, Structural)]
pub enum Operation {
    /// Take exclusive ownership of the peripheral set.
    AcquirePeripherals,
    /// Configure the LED's pin for push-pull drive and set it to `idle`.
    ConfigureOutput { idle: Level },
    /// Deposit the output handle into the registry.
    DepositOutput,
    /// Configure the button's pin as a floating input, make it an interrupt
    /// source that fires on `trigger`, and enable its interrupt generation.
    ConfigureInput { trigger: Trigger },
    /// Deposit the input handle into the registry.
    DepositInput,
    /// Unmask the interrupt vector at the controller.
    UnmaskInterrupt,
    /// Suspend the processor until an interrupt occurs.
    WaitForInterrupt,
}

/// The operations of startup, in the order in which they are performed.
pub open spec fn startup_order() -> Seq<Operation> {
    seq![
        Operation::AcquirePeripherals,
        Operation::ConfigureOutput { idle: LED_OFF },
        Operation::DepositOutput,
        Operation::ConfigureInput { trigger: Trigger::RisingFalling },
        Operation::DepositInput,
        Operation::UnmaskInterrupt,
    ]
}

/// The operation that follows once `completed` operations of startup are
/// done: the next one of the startup order, and after the last one the wait
/// for an interrupt, again and again.
pub open spec fn operation_after(completed: nat) -> Operation {
    if completed < startup_order().len() {
        startup_order()[completed as int]
    } else {
        Operation::WaitForInterrupt
    }
}

/// How far the foreground routine has come.
#[derive(Clone, Copy, Debug, PartialEq, Eq, Structural)]
pub enum Stage {
    /// Nothing has been done since reset.
    Reset,
    /// The peripheral set is owned.
    PeripheralsAcquired,
    /// The LED's line drives its idle level; the foreground routine holds
    /// the output handle.
    OutputConfigured,
    /// The output handle lies in the registry.
    OutputDeposited,
    /// The button's line raises its interrupt; the foreground routine holds
    /// the input handle.
    InputConfigured,
    /// Both handles lie in the registry; the interrupt is still masked.
    InputDeposited,
    /// Startup is complete: the interrupt is unmasked and the foreground
    /// routine does nothing but wait.
    Running,
}

impl Stage {
    /// The number of startup operations that have been performed.
    pub open spec fn completed(self) -> nat {
        match self {
            Stage::Reset => 0,
            Stage::PeripheralsAcquired => 1,
            Stage::OutputConfigured => 2,
            Stage::OutputDeposited => 3,
            Stage::InputConfigured => 4,
            Stage::InputDeposited => 5,
            Stage::Running => 6,
        }
    }

    /// The stage that the next operation leads to. The wait for an interrupt
    /// leads nowhere else.
    pub open spec fn successor(self) -> Stage {
        match self {
            Stage::Reset => Stage::PeripheralsAcquired,
            Stage::PeripheralsAcquired => Stage::OutputConfigured,
            Stage::OutputConfigured => Stage::OutputDeposited,
            Stage::OutputDeposited => Stage::InputConfigured,
            Stage::InputConfigured => Stage::InputDeposited,
            Stage::InputDeposited => Stage::Running,
            Stage::Running => Stage::Running,
        }
    }

    /// Whether startup is complete.
    pub fn is_running(self) -> (running: bool)
        ensures
            running == (self is Running),
            running == (self.completed() == startup_order().len()),
    {
        self == Stage::Running
    }

    /// The operation to perform now, and the stage reached once it has been
    /// performed.
    pub fn advance(self) -> (next: (Operation, Stage))
        ensures
            next.0 == operation_after(self.completed()),
            next.1 == self.successor(),
    {
        match self {
            Stage::Reset => (Operation::AcquirePeripherals, Stage::PeripheralsAcquired),
            Stage::PeripheralsAcquired => (
                Operation::ConfigureOutput { idle: LED_OFF },
                Stage::OutputConfigured,
            ),
            Stage::OutputConfigured => (Operation::DepositOutput, Stage::OutputDeposited),
            Stage::OutputDeposited => (
                Operation::ConfigureInput { trigger: Trigger::RisingFalling },
                Stage::InputConfigured,
            ),
            Stage::InputConfigured => (Operation::DepositInput, Stage::InputDeposited),
            Stage::InputDeposited => (Operation::UnmaskInterrupt, Stage::Running),
            Stage::Running => (Operation::WaitForInterrupt, Stage::Running),
        }
    }
}

/// Each operation of startup completes exactly one more of them, and the
/// wait for an interrupt completes none.
pub proof fn law_successor_counts(stage: Stage)
    ensures
        stage !is Running ==> stage.successor().completed() == stage.completed() + 1,
        stage is Running ==> stage.successor() == stage,
        stage.completed() <= startup_order().len(),
{
}

/// The interrupt is unmasked only once the output line has been set to its
/// idle level and both handles have been deposited.
pub proof fn law_unmask_comes_last(stage: Stage)
    requires
        operation_after(stage.completed()) is UnmaskInterrupt,
    ensures
        forall|earlier: int|
            0 <= earlier < startup_order().len() && startup_order()[earlier] !is UnmaskInterrupt
                ==> earlier < stage.completed(),
        stage.successor() is Running,
{
}

} // verus!
