//! Logic levels of a digital line.

use vstd::prelude::*;

verus! {

/// The logic level of a digital line.
#[derive(Clone, Copy, Debug, PartialEq, Eq, Structural)]
pub enum Level {
    Low,
    High,
}

impl Level {
    /// The other level.
    pub open spec fn inverse(self) -> Level {
        match self {
            Level::Low => Level::High,
            Level::High => Level::Low,
        }
    }

    /// The level of a line that stood at `self` and was then toggled `count`
    /// times.
    pub open spec fn after_toggles(self, count: nat) -> Level {
        if count % 2 == 0 {
            self
        } else {
            self.inverse()
        }
    }

    /// Returns the other level.
    pub fn toggled(self) -> (out: Level)
        ensures
            out == self.inverse(),
    {
        match self {
            Level::Low => Level::High,
            Level::High => Level::Low,
        }
    }
}

} // verus!
