use orderloop::controller::{Action, Awaiting, ControlError, Controller, Event};
use orderloop::quote::{Level, OrderBookSnapshot, TargetQuote};
use orderloop::ticker::Ticker;

const WHOLE: u64 = 100_000_000;

fn snapshot_avg(ask: u64, bid: u64) -> OrderBookSnapshot {
    OrderBookSnapshot {
        asks: vec![Level { price: ask * WHOLE, qty: WHOLE }; 10],
        bids: vec![Level { price: bid * WHOLE, qty: WHOLE }; 10],
    }
}

/// A scripted exchange: what each port call answers, and what was asked of it.
struct FakeExchange {
    depth_failures: Vec<bool>,
    place_ok: bool,
    cancel_failures: Vec<bool>,
    next_id: u64,
    sweeps: u32,
    placed: Vec<TargetQuote>,
    canceled: Vec<u64>,
    depth_calls: u32,
}

impl FakeExchange {
    fn new() -> Self {
        FakeExchange {
            depth_failures: vec![],
            place_ok: true,
            cancel_failures: vec![],
            next_id: 1,
            sweeps: 0,
            placed: vec![],
            canceled: vec![],
            depth_calls: 0,
        }
    }

    fn perform(&mut self, a: Action) -> Option<Event> {
        match a {
            Action::FetchDepth => {
                let fail = self.depth_failures.get(self.depth_calls as usize).copied().unwrap_or(false);
                self.depth_calls += 1;
                Some(if fail { Event::DepthFailed } else { Event::DepthReceived(snapshot_avg(100, 99)) })
            }
            Action::LimitSell(q) => {
                if !self.place_ok {
                    return Some(Event::PlacementFailed);
                }
                self.placed.push(q);
                self.next_id += 1;
                Some(Event::OrderPlaced(self.next_id - 1))
            }
            Action::CancelOrder(id) => {
                let fail = if self.cancel_failures.is_empty() { false } else { self.cancel_failures.remove(0) };
                if fail {
                    Some(Event::CancelFailed)
                } else {
                    self.canceled.push(id);
                    Some(Event::CancelAcked)
                }
            }
            Action::Wait | Action::Stop { .. } => None,
        }
    }
}

/// Runs the loop as a driver would, one tick per time unit, up to `ticks` ticks.
fn drive(ctl: &mut Controller, ex: &mut FakeExchange, ticks: u64) -> (u64, Option<Action>) {
    ex.sweeps += 1;
    let mut ticker = Ticker::new(0, 1);
    let mut now: u64 = 0;
    let mut used: u64 = 0;
    let mut last = None;
    while !ctl.is_done() && used < ticks {
        now += 1;
        if !ticker.is_ready(now) {
            continue;
        }
        used += 1;
        let mut action = ctl.step(Event::Tick).unwrap();
        while let Some(e) = ex.perform(action) {
            action = ctl.step(e).unwrap();
        }
        last = Some(action);
    }
    ex.sweeps += 1;
    (used, last)
}

#[test]
fn two_full_cycles_then_stop() {
    let mut ctl = Controller::new(2, 10);
    let mut ex = FakeExchange::new();
    let (ticks, last) = drive(&mut ctl, &mut ex, 100);
    assert_eq!(ticks, 4);
    assert_eq!(last, Some(Action::Stop { fatal: false }));
    assert_eq!(ex.placed, vec![TargetQuote { price_milli: 120_000, size: 0 }; 2]);
    assert_eq!(ex.canceled, vec![1, 2]);
    assert_eq!(ex.sweeps, 2);
    let st = ctl.loop_state();
    assert_eq!((st.opened, st.canceled), (2, 2));
    assert!(st.outstanding_order.is_none());
    assert!(ctl.is_done());
    assert!(!ctl.is_aborted());
    assert_eq!(ctl.step(Event::Tick), Err(ControlError::Terminated));
}

#[test]
fn depth_failure_on_first_tick_retries_next_tick() {
    let mut ctl = Controller::new(2, 10);
    assert_eq!(ctl.step(Event::Tick), Ok(Action::FetchDepth));
    assert_eq!(ctl.step(Event::DepthFailed), Ok(Action::Wait));
    let st = ctl.loop_state();
    assert_eq!(st.opened, 0);
    assert!(st.outstanding_order.is_none());
    assert_eq!(ctl.awaiting(), Awaiting::Tick);
    assert_eq!(ctl.step(Event::Tick), Ok(Action::FetchDepth));
    assert_eq!(
        ctl.step(Event::DepthReceived(snapshot_avg(100, 99))),
        Ok(Action::LimitSell(TargetQuote { price_milli: 120_000, size: 0 }))
    );
}

#[test]
fn depth_failure_in_driven_loop() {
    let mut ctl = Controller::new(2, 10);
    let mut ex = FakeExchange::new();
    ex.depth_failures = vec![true];
    let (ticks, _) = drive(&mut ctl, &mut ex, 100);
    assert_eq!(ticks, 5);
    assert_eq!(ex.depth_calls, 3);
    assert_eq!(ex.canceled, vec![1, 2]);
}

#[test]
fn empty_asks_skip_tick() {
    let mut ctl = Controller::new(2, 10);
    assert_eq!(ctl.step(Event::Tick), Ok(Action::FetchDepth));
    let empty = OrderBookSnapshot { asks: vec![], bids: vec![Level { price: WHOLE, qty: 1 }] };
    assert_eq!(ctl.step(Event::DepthReceived(empty)), Ok(Action::Wait));
    assert_eq!(ctl.loop_state().opened, 0);
    assert!(ctl.loop_state().outstanding_order.is_none());
    assert_eq!(ctl.awaiting(), Awaiting::Tick);
}

#[test]
fn cancel_failure_keeps_order_and_retries() {
    let mut ctl = Controller::new(1, 10);
    ctl.step(Event::Tick).unwrap();
    ctl.step(Event::DepthReceived(snapshot_avg(100, 99))).unwrap();
    assert_eq!(ctl.step(Event::OrderPlaced(77)), Ok(Action::Wait));
    assert_eq!(ctl.step(Event::Tick), Ok(Action::CancelOrder(77)));
    assert_eq!(ctl.step(Event::CancelFailed), Ok(Action::Wait));
    let st = ctl.loop_state();
    assert_eq!((st.opened, st.canceled), (1, 0));
    assert_eq!(st.outstanding_order.map(|h| h.order_id), Some(77));
    assert_eq!(ctl.step(Event::Tick), Ok(Action::CancelOrder(77)));
    assert_eq!(ctl.step(Event::CancelAcked), Ok(Action::Stop { fatal: false }));
    assert!(ctl.is_done());
}

#[test]
fn cancel_failures_in_driven_loop() {
    let mut ctl = Controller::new(2, 10);
    let mut ex = FakeExchange::new();
    ex.cancel_failures = vec![true, true, false, true];
    let (ticks, last) = drive(&mut ctl, &mut ex, 100);
    assert_eq!(ticks, 7);
    assert_eq!(last, Some(Action::Stop { fatal: false }));
    assert_eq!(ex.canceled, vec![1, 2]);
}

#[test]
fn placement_failure_aborts_without_opening() {
    let mut ctl = Controller::new(2, 10);
    let mut ex = FakeExchange::new();
    ex.place_ok = false;
    let (ticks, last) = drive(&mut ctl, &mut ex, 100);
    assert_eq!(ticks, 1);
    assert_eq!(last, Some(Action::Stop { fatal: true }));
    assert_eq!(ctl.loop_state().opened, 0);
    assert!(ctl.is_aborted());
    assert!(ctl.is_done());
    assert_eq!(ex.sweeps, 2);
    assert_eq!(ctl.step(Event::Tick), Err(ControlError::Terminated));
}

#[test]
fn invariant_holds_at_each_tick_boundary() {
    let mut ctl = Controller::new(3, 10);
    let mut ex = FakeExchange::new();
    ex.cancel_failures = vec![true, false, true, true, false];
    for _ in 0..20 {
        let st = ctl.loop_state();
        assert_eq!(st.outstanding_order.is_some(), st.opened > st.canceled);
        if ctl.is_done() {
            break;
        }
        let mut action = ctl.step(Event::Tick).unwrap();
        while let Some(e) = ex.perform(action) {
            action = ctl.step(e).unwrap();
        }
    }
    assert_eq!(ctl.loop_state().canceled, 3);
}

#[test]
fn zero_max_orders_is_done_at_once() {
    let mut ctl = Controller::new(0, 10);
    assert!(ctl.is_done());
    assert_eq!(ctl.step(Event::Tick), Err(ControlError::Terminated));
}

#[test]
fn unexpected_event_is_refused() {
    let mut ctl = Controller::new(2, 10);
    assert_eq!(ctl.step(Event::CancelAcked), Err(ControlError::UnexpectedEvent));
    assert_eq!(ctl.step(Event::OrderPlaced(1)), Err(ControlError::UnexpectedEvent));
    assert_eq!(ctl.step(Event::Tick), Ok(Action::FetchDepth));
    assert_eq!(ctl.step(Event::Tick), Err(ControlError::UnexpectedEvent));
    assert_eq!(ctl.awaiting(), Awaiting::Depth);
    assert_eq!(ctl.loop_state().opened, 0);
}
