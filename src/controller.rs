//! The order lifecycle controller: a state machine from state and event to
//! next state and action.
//!
//! The driver feeds it a `Tick` each time the ticker fires, performs the
//! action that comes back (fetch depth, place a limit sell, cancel the order),
//! and hands the outcome back as the next event. At most one order rests at a
//! time. A cancel failure is retried on the next tick; a placement failure
//! stops the loop. The driver sweeps all open orders of the symbol before the
//! first tick and after the controller stops.
use vstd::prelude::*;
use crate::quote::{derive_quote, quote_of, OrderBookSnapshot, TargetQuote};

verus! {

/// The identifier of a placed order.
#[derive(Clone, Copy, Debug, PartialEq, Eq, Structural)]
pub struct OrderHandle {
    pub order_id: u64,
}

/// The loop's counters and its resting order, if any.
#[derive(Clone, Copy, Debug)]
pub struct LoopState {
    pub outstanding_order: Option<OrderHandle>,
    pub opened: u64,
    pub canceled: u64,
}

/// The reply the controller waits for.
#[derive(Clone, Copy, Debug, PartialEq, Eq, Structural)]
pub enum Awaiting {
    /// The next tick of the ticker.
    Tick,
    /// The outcome of a depth fetch.
    Depth,
    /// The outcome of a limit sell.
    Placement,
    /// The outcome of a cancel.
    CancelAck,
}

/// What the driver reports to the controller.
#[derive(Clone, Debug)]
pub enum Event {
    Tick,
    DepthReceived(OrderBookSnapshot),
    DepthFailed,
    OrderPlaced(u64),
    PlacementFailed,
    CancelAcked,
    CancelFailed,
}

/// What the controller asks the driver to do.
#[derive(Clone, Copy, Debug, PartialEq, Eq, Structural)]
pub enum Action {
    /// Nothing more this tick: wait for the next one.
    Wait,
    /// Fetch the depth snapshot of the symbol.
    FetchDepth,
    /// Place a limit sell at the quote's price and size.
    LimitSell(TargetQuote),
    /// Cancel the resting order.
    CancelOrder(u64),
    /// The loop is over; `fatal` tells an abort from normal completion.
    Stop { fatal: bool },
}

/// An event that the controller cannot accept.
#[derive(Clone, Copy, Debug, PartialEq, Eq, Structural)]
pub enum ControlError {
    /// The event does not answer what the controller waits for.
    UnexpectedEvent,
    /// The loop has already ended.
    Terminated,
}

/// The abstract state of a controller.
pub struct ControllerModel {
    pub state: LoopState,
    pub max_order_count: u64,
    pub order_size_usd: u64,
    pub awaiting: Awaiting,
    pub aborted: bool,
}

impl ControllerModel {
    /// The loop is over: it was aborted, or all cancel cycles are done.
    pub open spec fn done(self) -> bool {
        self.aborted || self.state.canceled >= self.max_order_count
    }

    /// The state machine's invariant.
    pub open spec fn wf(self) -> bool {
        let st = self.state;
        &&& (st.outstanding_order is Some <==> st.opened > st.canceled)
        &&& st.canceled <= st.opened
        &&& st.opened <= st.canceled + 1
        &&& st.opened <= self.max_order_count
        &&& (self.awaiting == Awaiting::CancelAck ==> st.outstanding_order is Some)
        &&& (self.awaiting == Awaiting::Depth || self.awaiting == Awaiting::Placement)
            ==> st.outstanding_order is None
        &&& self.aborted ==> self.awaiting == Awaiting::Tick
    }

    /// The same state, waiting for another reply.
    pub open spec fn with_awaiting(self, awaiting: Awaiting) -> ControllerModel {
        ControllerModel { awaiting, ..self }
    }
}

/// One step of the state machine: the next state and the action to take.
pub open spec fn transition(m: ControllerModel, e: Event) -> (ControllerModel, Result<Action, ControlError>) {
    let st = m.state;
    if m.done() {
        (m, Err(ControlError::Terminated))
    } else {
        match (m.awaiting, e) {
            (Awaiting::Tick, Event::Tick) => match st.outstanding_order {
                Some(h) => (m.with_awaiting(Awaiting::CancelAck), Ok(Action::CancelOrder(h.order_id))),
                None => (m.with_awaiting(Awaiting::Depth), Ok(Action::FetchDepth)),
            },
            (Awaiting::Depth, Event::DepthReceived(s)) => match quote_of(s.asks@, m.order_size_usd as nat) {
                Ok(q) => (m.with_awaiting(Awaiting::Placement), Ok(Action::LimitSell(q))),
                Err(_) => (m.with_awaiting(Awaiting::Tick), Ok(Action::Wait)),
            },
            (Awaiting::Depth, Event::DepthFailed) => (m.with_awaiting(Awaiting::Tick), Ok(Action::Wait)),
            (Awaiting::Placement, Event::OrderPlaced(id)) => (
                ControllerModel {
                    state: LoopState {
                        outstanding_order: Some(OrderHandle { order_id: id }),
                        opened: (st.opened + 1) as u64,
                        canceled: st.canceled,
                    },
                    awaiting: Awaiting::Tick,
                    ..m
                },
                Ok(Action::Wait),
            ),
            (Awaiting::Placement, Event::PlacementFailed) => (
                ControllerModel { awaiting: Awaiting::Tick, aborted: true, ..m },
                Ok(Action::Stop { fatal: true }),
            ),
            (Awaiting::CancelAck, Event::CancelAcked) => (
                ControllerModel {
                    state: LoopState {
                        outstanding_order: None,
                        opened: st.opened,
                        canceled: (st.canceled + 1) as u64,
                    },
                    awaiting: Awaiting::Tick,
                    ..m
                },
                if st.canceled + 1 >= m.max_order_count {
                    Ok(Action::Stop { fatal: false })
                } else {
                    Ok(Action::Wait)
                },
            ),
            (Awaiting::CancelAck, Event::CancelFailed) => (m.with_awaiting(Awaiting::Tick), Ok(Action::Wait)),
            _ => (m, Err(ControlError::UnexpectedEvent)),
        }
    }
}

/// The state after feeding a sequence of events, one after the other.
pub open spec fn run(m: ControllerModel, events: Seq<Event>) -> ControllerModel
    decreases events.len(),
{
    if events.len() == 0 {
        m
    } else {
        run(transition(m, events[0]).0, events.drop_first())
    }
}


/// Every step keeps the invariant; in particular a resting order is held
/// exactly when more orders were opened than canceled.
pub proof fn lemma_step_keeps_invariant(m: ControllerModel, e: Event)
    requires
        m.wf(),
    ensures
        transition(m, e).0.wf(),
        transition(m, e).0.state.outstanding_order is Some <==> transition(m, e).0.state.opened
            > transition(m, e).0.state.canceled,
{
}

/// Along any sequence of events from a well-formed state the invariant holds
/// at every boundary: a resting order is held exactly when more orders were
/// opened than canceled.
pub proof fn lemma_run_keeps_invariant(m: ControllerModel, events: Seq<Event>)
    requires
        m.wf(),
    ensures
        run(m, events).wf(),
        run(m, events).state.outstanding_order is Some <==> run(m, events).state.opened > run(
            m,
            events,
        ).state.canceled,
    decreases events.len(),
{
    if events.len() > 0 {
        lemma_run_keeps_invariant(transition(m, events[0]).0, events.drop_first());
    }
}

/// The loop ends after exactly `max_order_count` successful cancels, never
/// more: a step raises `canceled` only on an acknowledged cancel, and then by
/// one; the count never passes `max_order_count`; unless aborted, the loop is
/// over exactly when the count has reached it, and the step that reaches it
/// asks to stop; once over, every event is refused and nothing changes.
pub proof fn lemma_terminates_after_max_cancels(m: ControllerModel, e: Event)
    requires
        m.wf(),
    ensures
        m.state.canceled <= m.max_order_count,
        !m.aborted ==> (m.done() <==> m.state.canceled == m.max_order_count),
        m.done() ==> transition(m, e) == (m, Err::<Action, ControlError>(ControlError::Terminated)),
        transition(m, e).0.state.canceled == m.state.canceled || (!m.done() && m.awaiting
            == Awaiting::CancelAck && e is CancelAcked && transition(m, e).0.state.canceled
            == m.state.canceled + 1),
        !m.done() && m.awaiting == Awaiting::CancelAck && e is CancelAcked ==> (transition(
            m,
            e,
        ).0.done() <==> transition(m, e).1 == Ok::<Action, ControlError>(
            Action::Stop { fatal: false },
        )),
{
}

/// Along any sequence of events from a well-formed state, the number of
/// successful cancels never decreases and never passes `max_order_count`;
/// and unless the loop was aborted, it is over exactly when that number has
/// reached `max_order_count`.
pub proof fn lemma_run_cancel_bound(m: ControllerModel, events: Seq<Event>)
    requires
        m.wf(),
    ensures
        m.state.canceled <= run(m, events).state.canceled <= m.max_order_count,
        run(m, events).max_order_count == m.max_order_count,
        !run(m, events).aborted ==> (run(m, events).done() <==> run(m, events).state.canceled
            == m.max_order_count),
    decreases events.len(),
{
    lemma_run_keeps_invariant(m, events);
    if events.len() > 0 {
        lemma_run_cancel_bound(transition(m, events[0]).0, events.drop_first());
    }
}

/// A failed cancel leaves the counters and the resting order as they were,
/// and the next tick cancels the same order again.
pub proof fn lemma_cancel_failure_retries(m: ControllerModel)
    requires
        m.wf(),
        !m.done(),
        m.awaiting == Awaiting::CancelAck,
    ensures
        transition(m, Event::CancelFailed).0.state == m.state,
        transition(m, Event::CancelFailed).1 == Ok::<Action, ControlError>(Action::Wait),
        transition(transition(m, Event::CancelFailed).0, Event::Tick).1 == Ok::<
            Action,
            ControlError,
        >(Action::CancelOrder(m.state.outstanding_order->Some_0.order_id)),
{
}

/// A failed placement ends the loop as an abort, with `opened` unchanged.
pub proof fn lemma_placement_failure_aborts(m: ControllerModel)
    requires
        m.wf(),
        !m.done(),
        m.awaiting == Awaiting::Placement,
    ensures
        transition(m, Event::PlacementFailed).0.state == m.state,
        transition(m, Event::PlacementFailed).0.done(),
        transition(m, Event::PlacementFailed).1 == Ok::<Action, ControlError>(
            Action::Stop { fatal: true },
        ),
{
}

/// A snapshot without asks skips the tick: the controller stays idle with its
/// counters unchanged, and waits for the next tick.
pub proof fn lemma_no_asks_stays_idle(m: ControllerModel, s: OrderBookSnapshot)
    requires
        m.wf(),
        !m.done(),
        m.awaiting == Awaiting::Depth,
        s.asks@.len() == 0,
    ensures
        transition(m, Event::DepthReceived(s)).0.state == m.state,
        transition(m, Event::DepthReceived(s)).0.state.outstanding_order is None,
        transition(m, Event::DepthReceived(s)).0.awaiting == Awaiting::Tick,
        transition(m, Event::DepthReceived(s)).1 == Ok::<Action, ControlError>(Action::Wait),
{
}

/// The order lifecycle controller.
pub struct Controller {
    state: LoopState,
    max_order_count: u64,
    order_size_usd: u64,
    awaiting: Awaiting,
    aborted: bool,
}

impl View for Controller {
    type V = ControllerModel;

    closed spec fn view(&self) -> ControllerModel {
        ControllerModel {
            state: self.state,
            max_order_count: self.max_order_count,
            order_size_usd: self.order_size_usd,
            awaiting: self.awaiting,
            aborted: self.aborted,
        }
    }
}

impl Controller {
    /// A controller at loop entry: idle, both counters zero.
    pub fn new(max_order_count: u64, order_size_usd: u64) -> (r: Controller)
        ensures
            r@.wf(),
            r@.state.outstanding_order is None,
            r@.state.opened == 0,
            r@.state.canceled == 0,
            r@.max_order_count == max_order_count,
            r@.order_size_usd == order_size_usd,
            r@.awaiting == Awaiting::Tick,
            !r@.aborted,
    {
        Controller {
            state: LoopState { outstanding_order: None, opened: 0, canceled: 0 },
            max_order_count,
            order_size_usd,
            awaiting: Awaiting::Tick,
            aborted: false,
        }
    }

    /// Feeds one event and returns the action to take next.
    pub fn step(&mut self, e: Event) -> (r: Result<Action, ControlError>)
        requires
            old(self)@.wf(),
        ensures
            final(self)@.wf(),
            (final(self)@, r) == transition(old(self)@, e),
    {
        if self.aborted || self.state.canceled >= self.max_order_count {
            return Err(ControlError::Terminated);
        }
        match (self.awaiting, e) {
            (Awaiting::Tick, Event::Tick) => match self.state.outstanding_order {
                Some(h) => {
                    self.awaiting = Awaiting::CancelAck;
                    Ok(Action::CancelOrder(h.order_id))
                },
                None => {
                    self.awaiting = Awaiting::Depth;
                    Ok(Action::FetchDepth)
                },
            },
            (Awaiting::Depth, Event::DepthReceived(s)) => match derive_quote(&s, self.order_size_usd) {
                Ok(q) => {
                    self.awaiting = Awaiting::Placement;
                    Ok(Action::LimitSell(q))
                },
                Err(_) => {
                    self.awaiting = Awaiting::Tick;
                    Ok(Action::Wait)
                },
            },
            (Awaiting::Depth, Event::DepthFailed) => {
                self.awaiting = Awaiting::Tick;
                Ok(Action::Wait)
            },
            (Awaiting::Placement, Event::OrderPlaced(id)) => {
                self.state = LoopState {
                    outstanding_order: Some(OrderHandle { order_id: id }),
                    opened: self.state.opened + 1,
                    canceled: self.state.canceled,
                };
                self.awaiting = Awaiting::Tick;
                Ok(Action::Wait)
            },
            (Awaiting::Placement, Event::PlacementFailed) => {
                self.awaiting = Awaiting::Tick;
                self.aborted = true;
                Ok(Action::Stop { fatal: true })
            },
            (Awaiting::CancelAck, Event::CancelAcked) => {
                self.state = LoopState {
                    outstanding_order: None,
                    opened: self.state.opened,
                    canceled: self.state.canceled + 1,
                };
                self.awaiting = Awaiting::Tick;
                if self.state.canceled >= self.max_order_count {
                    Ok(Action::Stop { fatal: false })
                } else {
                    Ok(Action::Wait)
                }
            },
            (Awaiting::CancelAck, Event::CancelFailed) => {
                self.awaiting = Awaiting::Tick;
                Ok(Action::Wait)
            },
            _ => Err(ControlError::UnexpectedEvent),
        }
    }

    /// The loop is over: it was aborted, or all cancel cycles are done.
    pub fn is_done(&self) -> (r: bool)
        ensures
            r == self@.done(),
    {
        self.aborted || self.state.canceled >= self.max_order_count
    }

    /// The loop was aborted by a failed placement.
    pub fn is_aborted(&self) -> (r: bool)
        ensures
            r == self@.aborted,
    {
        self.aborted
    }

    /// The counters and the resting order.
    pub fn loop_state(&self) -> (r: LoopState)
        ensures
            r == self@.state,
    {
        self.state
    }

    /// The reply the controller waits for.
    pub fn awaiting(&self) -> (r: Awaiting)
        ensures
            r == self@.awaiting,
    {
        self.awaiting
    }
}

} // verus!
