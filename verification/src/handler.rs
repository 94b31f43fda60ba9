//! The interrupt handler's side of the firmware: the handles it keeps for
//! itself, and what it does when the vector fires.
//!
//! The handler collects both handles from the registry on its first run and
//! keeps them in storage of its own from then on, so that later runs do not
//! touch the registry, nor the critical section that guards it.

use vstd::prelude::*;
use crate::registry::Registry;

verus! {

/// The handler's own storage, which lasts from one run to the next.
///
/// The variants are public so that the unbound handler can be written as a
/// constant expression, and so that the code that serves the interrupt can
/// reach both lines at once.
#[derive(Debug)]
pub enum Handler<L, B> {
    /// The handler has not run yet: the handles are still in the registry.
    Unbound,
    /// The handler owns both handles.
    Bound { led: L, button: B },
}

/// One thing that a run of the handler does to a line.
#[derive(Clone, Copy, Debug, PartialEq, Eq, Structural)]
pub enum Effect {
    /// Drive the other level on the output line.
    ToggleOutput,
    /// Clear the pending flag of the input line.
    ClearPending,
}

/// What a run of the handler does to the lines.
#[derive(Clone, Copy, Debug, PartialEq, Eq, Structural)]
pub enum Response {
    /// Leave both lines alone: the vector fired for another line.
    Ignore,
    /// Toggle the output line, and only then clear the pending flag of the
    /// input line.
    ///
    /// The flag is cleared before the run ends, or the controller would run
    /// the handler again for the edge just served. It is cleared last, so
    /// that an edge that arrives once the flag is clear finds the work of
    /// this run done and is served by a run of its own.
    ToggleThenAcknowledge,
}

impl View for Response {
    type V = Seq<Effect>;

    /// The effects of the run, in the order in which they take place.
    open spec fn view(&self) -> Seq<Effect> {
        match self {
            Response::Ignore => seq![],
            Response::ToggleThenAcknowledge => seq![Effect::ToggleOutput, Effect::ClearPending],
        }
    }
}

/// The response of a run that finds the pending flag of its line as given:
/// the line is served if and only if its flag is set.
pub open spec fn response_to(pending: bool) -> Response {
    if pending {
        Response::ToggleThenAcknowledge
    } else {
        Response::Ignore
    }
}

/// Decides what a run of the handler does, given whether the pending flag of
/// its own input line is set.
pub fn respond(pending: bool) -> (response: Response)
    ensures
        response == response_to(pending),
        response@ == if pending {
            seq![Effect::ToggleOutput, Effect::ClearPending]
        } else {
            seq![]
        },
{
    if pending {
        Response::ToggleThenAcknowledge
    } else {
        Response::Ignore
    }
}

impl<L, B> Handler<L, B> {
    /// The handler after it has made sure of its handles: one that is bound
    /// stays as it is, and one that is not takes both handles of `registry`.
    pub open spec fn bound_from(self, registry: Registry<L, B>) -> Handler<L, B>
        recommends
            self is Unbound ==> registry.complete(),
    {
        match self {
            Handler::Bound { .. } => self,
            Handler::Unbound => Handler::Bound {
                led: registry.led.withdrawn(),
                button: registry.button.withdrawn(),
            },
        }
    }

    /// The registry after the handler has made sure of its handles: untouched
    /// by a handler that is bound, emptied by one that is not.
    pub open spec fn registry_after_bind(self, registry: Registry<L, B>) -> Registry<L, B> {
        match self {
            Handler::Bound { .. } => registry,
            Handler::Unbound => Registry {
                led: registry.led.after_withdrawal(),
                button: registry.button.after_withdrawal(),
            },
        }
    }

    /// A handler that has not run yet.
    pub fn new() -> (handler: Self)
        ensures
            handler is Unbound,
    {
        Handler::Unbound
    }

    /// Whether the handler still has to collect its handles. Only then does
    /// a run need the registry.
    pub fn needs_binding(&self) -> (needed: bool)
        ensures
            needed == (self is Unbound),
    {
        match self {
            Handler::Unbound => true,
            Handler::Bound { .. } => false,
        }
    }

    /// Makes sure that the handler owns its handles: on the first run it
    /// withdraws both from `registry`, and on every later run it does nothing.
    ///
    /// A first run that finds a slot empty cannot go on: a caller that cannot
    /// rule this out tests [`Registry::is_complete`] first and halts.
    pub fn bind(&mut self, registry: &mut Registry<L, B>)
        requires
            *old(self) is Unbound ==> old(registry).complete(),
        ensures
            *final(self) == old(self).bound_from(*old(registry)),
            *final(registry) == old(self).registry_after_bind(*old(registry)),
    {
        if self.needs_binding() {
            let led = registry.led.withdraw();
            let button = registry.button.withdraw();
            *self = Handler::Bound { led, button };
        }
    }
}

/// Binding moves the handles and copies none: a handler that was not bound
/// ends up with exactly the two handles that the registry held, and the
/// registry with neither, so that each handle is in one place only.
pub proof fn law_bind_moves_handles<L, B>(registry: Registry<L, B>)
    requires
        registry.complete(),
    ensures
        Handler::<L, B>::Unbound.bound_from(registry) == (Handler::Bound {
            led: registry.led@->0,
            button: registry.button@->0,
        }),
        Handler::<L, B>::Unbound.registry_after_bind(registry).vacant(),
{
}

/// A bound handler keeps its handles and leaves the registry alone.
pub proof fn law_bind_once<L, B>(handler: Handler<L, B>, registry: Registry<L, B>)
    requires
        handler is Bound,
    ensures
        handler.bound_from(registry) == handler,
        handler.registry_after_bind(registry) == registry,
{
}

} // verus!
