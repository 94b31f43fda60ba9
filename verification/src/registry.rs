//! The handle registry: the place where the startup routine leaves the
//! peripheral handles for the interrupt handler to collect.
//!
//! A handle stands for exclusive control of one line, so it is moved, never
//! copied: it is either in its slot or with whoever withdrew it. The types
//! here say nothing of mutual exclusion; whoever shares a registry between
//! execution contexts enters a critical section around each operation.

use vstd::prelude::*;

verus! {

/// A place for at most one handle.
///
/// The field is public so that an empty slot can be written as a constant
/// expression.
#[derive(Debug)]
pub struct Slot<T> {
    pub handle: Option<T>,
}

impl<T> View for Slot<T> {
    type V = Option<T>;

    open spec fn view(&self) -> Option<T> {
        self.handle
    }
}

impl<T> Slot<T> {
    /// The slot once `handle` has been deposited into it.
    pub open spec fn with_deposit(self, handle: T) -> Slot<T> {
        Slot { handle: Some(handle) }
    }

    /// Whether a withdrawal is permitted: the slot holds a handle.
    pub open spec fn can_withdraw(self) -> bool {
        self.handle is Some
    }

    /// The handle that a withdrawal hands out.
    pub open spec fn withdrawn(self) -> T
        recommends
            self.can_withdraw(),
    {
        self.handle->0
    }

    /// The slot that a withdrawal leaves behind.
    pub open spec fn after_withdrawal(self) -> Slot<T> {
        Slot { handle: None }
    }

    /// An empty slot.
    pub fn empty() -> (slot: Self)
        ensures
            slot@ is None,
    {
        Slot { handle: None }
    }

    /// Whether the slot holds a handle.
    pub fn is_occupied(&self) -> (occupied: bool)
        ensures
            occupied == self.can_withdraw(),
    {
        self.handle.is_some()
    }

    /// Stores `handle`, replacing whatever the slot held.
    pub fn deposit(&mut self, handle: T)
        ensures
            *final(self) == old(self).with_deposit(handle),
    {
        self.handle = Some(handle);
    }

    /// Removes the handle and returns it, leaving the slot empty.
    ///
    /// Withdrawing from an empty slot is a programming error, not a condition
    /// to recover from: a caller that cannot rule it out tests
    /// [`Slot::is_occupied`] first and halts.
    pub fn withdraw(&mut self) -> (handle: T)
        requires
            old(self).can_withdraw(),
        ensures
            handle == old(self).withdrawn(),
            *final(self) == old(self).after_withdrawal(),
    {
        self.handle.take().unwrap()
    }
}

/// The two slots of the firmware: one for the handle of the LED's output
/// line, one for the handle of the button's input line.
#[derive(Debug)]
pub struct Registry<L, B> {
    pub led: Slot<L>,
    pub button: Slot<B>,
}

impl<L, B> Registry<L, B> {
    /// Whether both handles are in place.
    pub open spec fn complete(self) -> bool {
        self.led.can_withdraw() && self.button.can_withdraw()
    }

    /// Whether neither handle is in place.
    pub open spec fn vacant(self) -> bool {
        self.led@ is None && self.button@ is None
    }

    /// A registry with both slots empty.
    pub fn new() -> (registry: Self)
        ensures
            registry.vacant(),
    {
        Registry { led: Slot::empty(), button: Slot::empty() }
    }

    /// Whether both handles are in place.
    pub fn is_complete(&self) -> (complete: bool)
        ensures
            complete == self.complete(),
    {
        self.led.is_occupied() && self.button.is_occupied()
    }
}

/// A withdrawal that follows a deposit is permitted and hands out the very
/// handle that was deposited, whatever the slot held before.
pub proof fn law_withdraw_returns_deposit<T>(slot: Slot<T>, handle: T)
    ensures
        slot.with_deposit(handle).can_withdraw(),
        slot.with_deposit(handle).withdrawn() == handle,
{
}

/// A deposit followed by a withdrawal leaves the slot empty, so that a second
/// withdrawal is not permitted: a handle is handed out once.
pub proof fn law_withdraw_empties<T>(slot: Slot<T>, handle: T)
    ensures
        slot.with_deposit(handle).after_withdrawal()@ is None,
        !slot.with_deposit(handle).after_withdrawal().can_withdraw(),
{
}

} // verus!
