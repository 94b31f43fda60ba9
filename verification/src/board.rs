//! The board as a whole: the firmware's three parts around a model of the
//! two lines, driven by the events that reach a real board.
//!
//! [`BoardView`] is the board as a state machine over plain values, and the
//! laws of this module are stated of it. [`Board`] is the same board with
//! the handles as values that are moved from the foreground routine to the
//! registry and from there to the handler; each of its operations is proved
//! to make the step that the state machine makes.

use vstd::prelude::*;
use crate::handler::{respond, response_to, Effect, Handler, Response};
use crate::level::Level;
use crate::line::{Edge, InputLine, OutputLine, Trigger, LED_OFF};
use crate::registry::Registry;
use crate::startup::{operation_after, Operation, Stage};

verus! {

/// Something that happens to the board.
#[derive(Clone, Copy, Debug, PartialEq, Eq, Structural)]
pub enum Event {
    /// The foreground routine performs its next operation.
    Step,
    /// The level at the button's pin changes.
    Edge(Edge),
    /// The interrupt controller is asked to run the handler, for whatever
    /// line that shares the vector.
    Dispatch,
}

/// Who holds the handle of a line.
#[derive(Clone, Copy, Debug, PartialEq, Eq, Structural)]
pub enum Holder {
    /// The line is not configured yet, so there is no handle.
    Nobody,
    /// The foreground routine, which has configured the line and not yet
    /// deposited the handle.
    Foreground,
    /// The registry.
    Registry,
    /// The handler, in storage of its own.
    Handler,
}

/// The state of the board.
pub struct BoardView {
    /// How far the foreground routine has come.
    pub stage: Stage,
    /// The level of the LED's line, once the line is configured.
    pub led: Option<Level>,
    /// The trigger of the button's line, once the line is configured.
    pub trigger: Option<Trigger>,
    /// The pending flag of the button's line.
    pub pending: bool,
    /// Whether the handler has collected the handles.
    pub bound: bool,
}

impl BoardView {
    /// The board as reset leaves it.
    pub open spec fn power_on() -> BoardView {
        BoardView { stage: Stage::Reset, led: None, trigger: None, pending: false, bound: false }
    }

    /// Whether the interrupt vector is unmasked, so that the handler can run.
    pub open spec fn unmasked(self) -> bool {
        self.stage is Running
    }

    /// Who holds the handle of the LED's line.
    pub open spec fn led_holder(self) -> Holder {
        if self.stage.completed() < 2 {
            Holder::Nobody
        } else if self.stage.completed() == 2 {
            Holder::Foreground
        } else if self.bound {
            Holder::Handler
        } else {
            Holder::Registry
        }
    }

    /// Who holds the handle of the button's line.
    pub open spec fn button_holder(self) -> Holder {
        if self.stage.completed() < 4 {
            Holder::Nobody
        } else if self.stage.completed() == 4 {
            Holder::Foreground
        } else if self.bound {
            Holder::Handler
        } else {
            Holder::Registry
        }
    }

    /// What holds of every state that the board can reach.
    pub open spec fn wf(self) -> bool {
        let done = self.stage.completed();
        &&& self.led is Some <==> done >= 2
        &&& 2 <= done < 6 ==> self.led == Some(LED_OFF)
        &&& self.trigger is Some <==> done >= 4
        &&& self.trigger is Some ==> self.trigger == Some(Trigger::RisingFalling)
        &&& self.pending ==> self.trigger is Some
        &&& self.bound ==> self.unmasked()
    }

    /// The board after the foreground routine has performed its next
    /// operation.
    pub open spec fn after_step(self) -> BoardView {
        let operation = operation_after(self.stage.completed());
        BoardView {
            stage: self.stage.successor(),
            led: if let Operation::ConfigureOutput { idle } = operation {
                Some(idle)
            } else {
                self.led
            },
            trigger: if let Operation::ConfigureInput { trigger } = operation {
                Some(trigger)
            } else {
                self.trigger
            },
            ..self
        }
    }

    /// The level of the LED's line once it is toggled.
    pub open spec fn led_toggled(self) -> Option<Level> {
        if let Some(level) = self.led {
            Some(level.inverse())
        } else {
            None
        }
    }

    /// The board after `effect` has taken place on its line.
    pub open spec fn after_effect(self, effect: Effect) -> BoardView {
        match effect {
            Effect::ToggleOutput => BoardView { led: self.led_toggled(), ..self },
            Effect::ClearPending => BoardView { pending: false, ..self },
        }
    }

    /// The board after `effects` have taken place, the first of them first.
    pub open spec fn after_effects(self, effects: Seq<Effect>) -> BoardView
        decreases effects.len(),
    {
        if effects.len() == 0 {
            self
        } else {
            self.after_effects(effects.drop_last()).after_effect(effects.last())
        }
    }

    /// The board after the controller was asked to run the handler. While the
    /// vector is masked nothing runs. Otherwise the handler has its handles
    /// from then on, and if the pending flag of its line was set, the LED's
    /// line is toggled and the flag is cleared.
    pub open spec fn after_dispatch(self) -> BoardView {
        if !self.unmasked() {
            self
        } else if self.pending {
            BoardView { led: self.led_toggled(), pending: false, bound: true, ..self }
        } else {
            BoardView { bound: true, ..self }
        }
    }

    /// The board after an edge at the button's pin: the pending flag is
    /// latched if the line is configured and its trigger selects the edge, and
    /// the controller is asked to run the handler.
    pub open spec fn after_edge(self, edge: Edge) -> BoardView {
        let latched = if let Some(trigger) = self.trigger {
            BoardView { pending: self.pending || trigger.selects(edge), ..self }
        } else {
            self
        };
        latched.after_dispatch()
    }

    /// The board after `event`.
    pub open spec fn after_event(self, event: Event) -> BoardView {
        match event {
            Event::Step => self.after_step(),
            Event::Edge(edge) => self.after_edge(edge),
            Event::Dispatch => self.after_dispatch(),
        }
    }

    /// The board after `events`, the first of them first.
    pub open spec fn after_events(self, events: Seq<Event>) -> BoardView
        decreases events.len(),
    {
        if events.len() == 0 {
            self
        } else {
            self.after_events(events.drop_last()).after_event(events.last())
        }
    }
}

/// A board: the foreground routine at some stage of startup, the registry,
/// the handler, and the two lines, each line with whoever holds its handle.
pub struct Board {
    stage: Stage,
    /// The output handle while the foreground routine holds it, between
    /// configuring the line and depositing the handle.
    led_in_hand: Option<OutputLine>,
    /// The input handle while the foreground routine holds it.
    button_in_hand: Option<InputLine>,
    registry: Registry<OutputLine, InputLine>,
    handler: Handler<OutputLine, InputLine>,
}

impl View for Board {
    type V = BoardView;

    closed spec fn view(&self) -> BoardView {
        BoardView {
            stage: self.stage,
            led: if let Some(line) = self.output_line() {
                Some(line.level)
            } else {
                None
            },
            trigger: if let Some(line) = self.input_line() {
                Some(line.trigger)
            } else {
                None
            },
            pending: if let Some(line) = self.input_line() {
                line.pending
            } else {
                false
            },
            bound: self.handler is Bound,
        }
    }
}

impl Board {
    /// The LED's line, found with whoever holds its handle.
    closed spec fn output_line(&self) -> Option<OutputLine> {
        if self.led_in_hand is Some {
            self.led_in_hand
        } else if self.registry.led@ is Some {
            self.registry.led@
        } else if let Handler::Bound { led, .. } = self.handler {
            Some(led)
        } else {
            None
        }
    }

    /// The button's line, found with whoever holds its handle.
    closed spec fn input_line(&self) -> Option<InputLine> {
        if self.button_in_hand is Some {
            self.button_in_hand
        } else if self.registry.button@ is Some {
            self.registry.button@
        } else if let Handler::Bound { button, .. } = self.handler {
            Some(button)
        } else {
            None
        }
    }

    /// Each handle is in the one place where the stage of startup puts it:
    /// with the foreground routine from the moment its line is configured
    /// until it is deposited, then in the registry, and with the handler once
    /// the handler has run.
    pub closed spec fn handles_in_place(&self) -> bool {
        let done = self.stage.completed();
        &&& self.led_in_hand is Some <==> done == 2
        &&& self.button_in_hand is Some <==> done == 4
        &&& self.registry.led@ is Some <==> done >= 3 && self.handler is Unbound
        &&& self.registry.button@ is Some <==> done >= 5 && self.handler is Unbound
    }

    /// The board is in a state that it can reach, with each handle in its
    /// place.
    pub open spec fn wf(&self) -> bool {
        self.handles_in_place() && self@.wf()
    }

    /// The board as reset leaves it.
    pub fn power_on() -> (board: Board)
        ensures
            board.wf(),
            board@ == BoardView::power_on(),
    {
        Board {
            stage: Stage::Reset,
            led_in_hand: None,
            button_in_hand: None,
            registry: Registry::new(),
            handler: Handler::new(),
        }
    }

    /// How far the foreground routine has come.
    pub fn stage(&self) -> (stage: Stage)
        ensures
            stage == self@.stage,
    {
        self.stage
    }

    /// The level of the LED's line, once the line is configured.
    pub fn led_level(&self) -> (level: Option<Level>)
        ensures
            level == self@.led,
    {
        if let Some(line) = &self.led_in_hand {
            Some(line.level)
        } else if let Some(line) = &self.registry.led.handle {
            Some(line.level)
        } else if let Handler::Bound { led, .. } = &self.handler {
            Some(led.level)
        } else {
            None
        }
    }

    /// Whether the pending flag of the button's line is set.
    pub fn is_pending(&self) -> (pending: bool)
        ensures
            pending == self@.pending,
    {
        if let Some(line) = &self.button_in_hand {
            line.check_interrupt()
        } else if let Some(line) = &self.registry.button.handle {
            line.check_interrupt()
        } else if let Handler::Bound { button, .. } = &self.handler {
            button.check_interrupt()
        } else {
            false
        }
    }

    /// Whether the handler has collected the handles.
    pub fn is_bound(&self) -> (bound: bool)
        ensures
            bound == self@.bound,
    {
        !self.handler.needs_binding()
    }

    /// Who holds the handle of the LED's line.
    pub fn led_holder(&self) -> (holder: Holder)
        requires
            self.wf(),
        ensures
            holder == self@.led_holder(),
    {
        if self.led_in_hand.is_some() {
            Holder::Foreground
        } else if self.registry.led.is_occupied() {
            Holder::Registry
        } else if self.handler.needs_binding() {
            Holder::Nobody
        } else {
            Holder::Handler
        }
    }

    /// Who holds the handle of the button's line.
    pub fn button_holder(&self) -> (holder: Holder)
        requires
            self.wf(),
        ensures
            holder == self@.button_holder(),
    {
        if self.button_in_hand.is_some() {
            Holder::Foreground
        } else if self.registry.button.is_occupied() {
            Holder::Registry
        } else if self.handler.needs_binding() {
            Holder::Nobody
        } else {
            Holder::Handler
        }
    }

    /// The foreground routine performs its next operation, which is returned.
    pub fn step(&mut self) -> (operation: Operation)
        requires
            old(self).wf(),
        ensures
            final(self).wf(),
            operation == operation_after(old(self)@.stage.completed()),
            final(self)@ == old(self)@.after_step(),
    {
        let (operation, next) = self.stage.advance();
        match operation {
            Operation::ConfigureOutput { idle } => {
                self.led_in_hand = Some(OutputLine::push_pull(idle));
            },
            Operation::DepositOutput => {
                let line = self.led_in_hand.take().unwrap();
                self.registry.led.deposit(line);
            },
            Operation::ConfigureInput { trigger } => {
                self.button_in_hand = Some(InputLine::interrupt_source(trigger));
            },
            Operation::DepositInput => {
                let line = self.button_in_hand.take().unwrap();
                self.registry.button.deposit(line);
            },
            Operation::AcquirePeripherals
            | Operation::UnmaskInterrupt
            | Operation::WaitForInterrupt => {},
        }
        self.stage = next;
        operation
    }

    /// The controller is asked to run the handler. While the vector is masked
    /// nothing runs. Otherwise the handler makes sure of its handles, reads
    /// the pending flag of its line, and does what [`respond`] decides.
    pub fn dispatch(&mut self)
        requires
            old(self).wf(),
        ensures
            final(self).wf(),
            final(self)@ == old(self)@.after_dispatch(),
    {
        if self.stage.is_running() {
            self.handler.bind(&mut self.registry);
            match &mut self.handler {
                Handler::Bound { led, button } => {
                    match respond(button.check_interrupt()) {
                        Response::ToggleThenAcknowledge => {
                            led.toggle();
                            button.clear_interrupt_pending_bit();
                        },
                        Response::Ignore => {},
                    }
                },
                Handler::Unbound => {},
            }
        }
    }

    /// The level at the button's pin changes: the line senses the edge, and
    /// the controller is asked to run the handler.
    pub fn edge(&mut self, edge: Edge)
        requires
            old(self).wf(),
        ensures
            final(self).wf(),
            final(self)@ == old(self)@.after_edge(edge),
    {
        if let Some(line) = &mut self.button_in_hand {
            line.sense(edge);
        }
        if let Some(line) = &mut self.registry.button.handle {
            line.sense(edge);
        }
        if let Handler::Bound { button, .. } = &mut self.handler {
            button.sense(edge);
        }
        self.dispatch();
    }

    /// Lets `event` happen to the board.
    pub fn apply(&mut self, event: Event)
        requires
            old(self).wf(),
        ensures
            final(self).wf(),
            final(self)@ == old(self)@.after_event(event),
    {
        match event {
            Event::Step => {
                self.step();
            },
            Event::Edge(edge) => self.edge(edge),
            Event::Dispatch => self.dispatch(),
        }
    }

    /// Lets `events` happen to the board, the first of them first.
    pub fn run(&mut self, events: &[Event])
        requires
            old(self).wf(),
        ensures
            final(self).wf(),
            final(self)@ == old(self)@.after_events(events@),
    {
        let mut done: usize = 0;
        while done < events.len()
            invariant
                done <= events.len(),
                self.wf(),
                self@ == old(self)@.after_events(events@.take(done as int)),
            decreases events.len() - done,
        {
            proof {
                let upto = events@.take(done + 1);
                assert(upto.drop_last() == events@.take(done as int));
                assert(upto.last() == events@[done as int]);
            }
            self.apply(events[done]);
            done = done + 1;
        }
        proof {
            assert(events@.take(done as int) == events@);
        }
    }
}

/// The number of edges among `events`.
pub open spec fn edge_count(events: Seq<Event>) -> nat
    decreases events.len(),
{
    if events.len() == 0 {
        0
    } else {
        edge_count(events.drop_last()) + if events.last() is Edge {
            1nat
        } else {
            0nat
        }
    }
}

/// A run of the handler does to the board what its response says, in the
/// order in which the response says it: with the pending flag set, the LED's
/// line is toggled first and the flag is cleared after that; with the flag
/// clear, nothing is done to either line.
pub proof fn law_dispatch_applies_response(board: BoardView)
    requires
        board.unmasked(),
    ensures
        board.after_dispatch() == (BoardView { bound: true, ..board }).after_effects(
            response_to(board.pending)@,
        ),
{
    if board.pending {
        let bound = BoardView { bound: true, ..board };
        let toggle = seq![Effect::ToggleOutput];
        assert(response_to(true)@.drop_last() == toggle);
        assert(toggle.drop_last() == Seq::<Effect>::empty());
        assert(bound.after_effects(toggle.drop_last()) == bound);
        assert(bound.after_effects(toggle) == bound.after_effect(Effect::ToggleOutput));
    }
}

/// No event leads out of the states that the board can reach.
pub proof fn law_event_preserves_wf(board: BoardView, event: Event)
    requires
        board.wf(),
    ensures
        board.after_event(event).wf(),
{
}

/// Whatever happens to a board after reset, and in whatever order, it stays
/// within the states described by [`BoardView::wf`].
pub proof fn law_reachable_wf(events: Seq<Event>)
    ensures
        BoardView::power_on().after_events(events).wf(),
    decreases events.len(),
{
    if events.len() > 0 {
        law_reachable_wf(events.drop_last());
        law_event_preserves_wf(
            BoardView::power_on().after_events(events.drop_last()),
            events.last(),
        );
    }
}

/// Whenever the handler can run it finds its handles: from the moment the
/// interrupt is unmasked both are in the registry, until the first run of the
/// handler takes both, and from then on the handler has them. No handle is
/// ever with the handler while the interrupt is masked.
pub proof fn law_handler_finds_handles(events: Seq<Event>)
    ensures
        ({
            let board = BoardView::power_on().after_events(events);
            &&& board.unmasked() && !board.bound ==> board.led_holder() is Registry
                && board.button_holder() is Registry
            &&& board.unmasked() && board.bound ==> board.led_holder() is Handler
                && board.button_holder() is Handler
            &&& !board.unmasked() ==> board.led_holder() !is Handler
                && board.button_holder() !is Handler
        }),
{
    law_reachable_wf(events);
}

/// Up to the moment at which the interrupt is unmasked the LED is dark,
/// whenever edges arrive at the button's pin while startup is under way: once
/// the LED's line is configured it stands at the idle level through every
/// later stage of startup, the one that unmasks the interrupt included.
pub proof fn law_led_off_until_unmasked(events: Seq<Event>)
    ensures
        ({
            let board = BoardView::power_on().after_events(events);
            &&& 2 <= board.stage.completed() < 6 ==> board.led == Some(LED_OFF)
            &&& operation_after(board.stage.completed()) is UnmaskInterrupt ==> board.led == Some(
                LED_OFF,
            )
        }),
{
    law_reachable_wf(events);
}

/// A run of the handler that finds the pending flag of its line clear leaves
/// the LED as it was; all it can change is that the handler now has its
/// handles.
pub proof fn law_spurious_dispatch_keeps_level(board: BoardView)
    requires
        !board.pending,
    ensures
        board.after_dispatch().led == board.led,
        board.after_dispatch() == (BoardView {
            bound: board.bound || board.unmasked(),
            ..board
        }),
{
}

/// An edge that has been served is not served again: a second run of the
/// handler right after the first changes nothing.
pub proof fn law_dispatch_serves_once(board: BoardView)
    ensures
        board.after_dispatch().after_dispatch() == board.after_dispatch(),
{
}

/// Once startup is complete, every edge toggles the LED exactly once and
/// leaves nothing pending.
pub proof fn law_edge_toggles_once(board: BoardView, edge: Edge)
    requires
        board.wf(),
        board.unmasked(),
    ensures
        board.after_edge(edge) == (BoardView {
            led: Some(board.led->0.inverse()),
            pending: false,
            bound: true,
            ..board
        }),
{
}

/// Once startup is complete, the level of the LED after any number of edges
/// is the level before them, inverted if their number is odd: no toggle is
/// lost and none happens twice.
pub proof fn law_edges_toggle_parity(board: BoardView, edges: Seq<Event>)
    requires
        board.wf(),
        board.unmasked(),
        forall|i: int| 0 <= i < edges.len() ==> edges[i] is Edge,
    ensures
        board.after_events(edges).wf(),
        board.after_events(edges).unmasked(),
        board.after_events(edges).led == Some(board.led->0.after_toggles(edges.len())),
    decreases edges.len(),
{
    if edges.len() > 0 {
        law_edges_toggle_parity(board, edges.drop_last());
        law_edge_toggles_once(board.after_events(edges.drop_last()), edges.last()->0);
    }
}

/// The same holds when the edges come mixed with runs of the handler for
/// other lines and with the foreground routine waking up and going back to
/// sleep: with nothing pending at the start, the level of the LED after any
/// events is the level before them, inverted if the edges among them are odd
/// in number.
pub proof fn law_events_toggle_parity(board: BoardView, events: Seq<Event>)
    requires
        board.wf(),
        board.unmasked(),
        !board.pending,
    ensures
        board.after_events(events).wf(),
        board.after_events(events).unmasked(),
        !board.after_events(events).pending,
        board.after_events(events).led == Some(board.led->0.after_toggles(edge_count(events))),
    decreases events.len(),
{
    if events.len() > 0 {
        law_events_toggle_parity(board, events.drop_last());
        let before = board.after_events(events.drop_last());
        match events.last() {
            Event::Edge(edge) => law_edge_toggles_once(before, edge),
            _ => {},
        }
    }
}

} // verus!
