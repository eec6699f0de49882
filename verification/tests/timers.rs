use script_timers::timers::{
    IsInterval, OneshotTimerCallback, OneshotTimerHandle, OneshotTimers, TimerCallback,
    TimerSource, WakeRequest,
};

const SRC: TimerSource = TimerSource::FromWindow(1);

fn handles_of(batch: &[script_timers::timers::OneshotTimer]) -> Vec<i32> {
    batch.iter().map(|t| t.handle.0).collect()
}

#[test]
fn schedule_returns_monotonic_handles_and_requests() {
    let mut registry = OneshotTimers::new();
    let (a, req_a) = registry.schedule_callback(OneshotTimerCallback::XhrTimeout(1), 50, SRC, 0);
    assert_eq!(a, OneshotTimerHandle(1));
    assert_eq!(
        req_a,
        Some(WakeRequest { source: SRC, event_id: 1, delay_ms: 50 })
    );

    let (b, req_b) = registry.schedule_callback(OneshotTimerCallback::XhrTimeout(2), 10, SRC, 0);
    assert_eq!(b, OneshotTimerHandle(2));
    // The new record is the soonest due: the earlier request is superseded.
    assert_eq!(
        req_b,
        Some(WakeRequest { source: SRC, event_id: 2, delay_ms: 10 })
    );

    let (c, req_c) = registry.schedule_callback(OneshotTimerCallback::XhrTimeout(3), 30, SRC, 0);
    assert_eq!(c, OneshotTimerHandle(3));
    // Not the soonest due: no new request.
    assert_eq!(req_c, None);
}

#[test]
fn soonest_due_handle_tracks_minimum() {
    let mut registry = OneshotTimers::new();
    assert_eq!(registry.soonest_due_handle(), None);
    let (a, _) = registry.schedule_callback(OneshotTimerCallback::XhrTimeout(1), 50, SRC, 0);
    assert_eq!(registry.soonest_due_handle(), Some(a));
    let (b, _) = registry.schedule_callback(OneshotTimerCallback::XhrTimeout(2), 10, SRC, 0);
    assert_eq!(registry.soonest_due_handle(), Some(b));
    let (_c, _) = registry.schedule_callback(OneshotTimerCallback::XhrTimeout(3), 30, SRC, 0);
    assert_eq!(registry.soonest_due_handle(), Some(b));
    registry.unschedule_callback(b, 0);
    // After cancelling the soonest, the next in due order takes its place.
    let soonest = registry.soonest_due_handle();
    assert_eq!(soonest, Some(OneshotTimerHandle(3)));
}

#[test]
fn firing_order_is_due_time_then_handle() {
    // Relative due times {50, 10, 30} for handles a, b, c, clock at 0.
    let mut registry = OneshotTimers::new();
    let (a, _) = registry.schedule_callback(OneshotTimerCallback::XhrTimeout(1), 50, SRC, 0);
    let (b, _) = registry.schedule_callback(OneshotTimerCallback::XhrTimeout(2), 10, SRC, 0);
    let (c, _) = registry.schedule_callback(OneshotTimerCallback::XhrTimeout(3), 30, SRC, 0);

    // At t=10 a matching wake fires only b; a nonempty batch defers the
    // follow-up request until the callbacks have run.
    let (batch, reissue) = registry.fire_timer(2, 10);
    assert_eq!(handles_of(&batch), vec![b.0]);
    assert_eq!(reissue, None);
    let req = registry.schedule_timer_call(10);
    assert_eq!(
        req,
        Some(WakeRequest { source: SRC, event_id: 3, delay_ms: 20 })
    );

    // At t=50 a matching wake fires c then a, in that order.
    let (batch, _) = registry.fire_timer(3, 50);
    assert_eq!(handles_of(&batch), vec![c.0, a.0]);
    assert_eq!(registry.soonest_due_handle(), None);
    assert_eq!(registry.schedule_timer_call(50), None);
}

#[test]
fn equal_due_times_fire_oldest_handle_first() {
    let mut registry = OneshotTimers::new();
    let (a, _) = registry.schedule_callback(OneshotTimerCallback::XhrTimeout(1), 10, SRC, 0);
    let (b, req_b) = registry.schedule_callback(OneshotTimerCallback::XhrTimeout(2), 10, SRC, 0);
    // A tie is not strictly sooner: the outstanding request stands.
    assert_eq!(req_b, None);
    let (batch, _) = registry.fire_timer(1, 10);
    assert_eq!(handles_of(&batch), vec![a.0, b.0]);
}

#[test]
fn stale_wake_fires_nothing() {
    let mut registry = OneshotTimers::new();
    let (_a, req) = registry.schedule_callback(OneshotTimerCallback::XhrTimeout(1), 10, SRC, 0);
    let token = req.unwrap().event_id;
    let (_b, req2) = registry.schedule_callback(OneshotTimerCallback::XhrTimeout(2), 5, SRC, 0);
    let newer = req2.unwrap().event_id;
    assert_ne!(token, newer);

    // The superseded wake arrives: nothing fires, nothing changes, and no
    // request is re-issued for a stale token.
    let (batch, reissue) = registry.fire_timer(token, 10);
    assert!(batch.is_empty());
    assert_eq!(reissue, None);
    assert_eq!(registry.soonest_due_handle(), Some(OneshotTimerHandle(2)));

    // The current wake still works afterwards.
    let (batch, _) = registry.fire_timer(newer, 10);
    assert_eq!(batch.len(), 2);
}

#[test]
fn matching_wake_with_nothing_due_reissues_the_request() {
    let mut registry = OneshotTimers::new();
    // Token 0 matches a fresh registry; the collection is empty, so there
    // is nothing to re-request either.
    let (batch, reissue) = registry.fire_timer(0, 5);
    assert!(batch.is_empty());
    assert_eq!(reissue, None);

    let (_a, req) = registry.schedule_callback(OneshotTimerCallback::XhrTimeout(1), 100, SRC, 0);
    // The wake arrives early: nothing fires, and the empty batch completes
    // by re-requesting for the record that is still soonest-due.
    let (batch, reissue) = registry.fire_timer(req.unwrap().event_id, 50);
    assert!(batch.is_empty());
    assert_eq!(
        reissue,
        Some(WakeRequest { source: SRC, event_id: 2, delay_ms: 50 })
    );
    assert_eq!(registry.soonest_due_handle(), Some(OneshotTimerHandle(1)));

    // The re-issued wake fires the record once it is really due.
    let (batch, reissue) = registry.fire_timer(2, 100);
    assert_eq!(batch.len(), 1);
    assert_eq!(reissue, None);
}

#[test]
fn cancel_prevents_firing_even_against_dispatched_wake() {
    let mut registry = OneshotTimers::new();
    let (a, req) = registry.schedule_callback(OneshotTimerCallback::XhrTimeout(1), 10, SRC, 0);
    let token = req.unwrap().event_id;

    // The wake request for exactly this record is already dispatched when
    // the record is cancelled.
    let req = registry.unschedule_callback(a, 5);
    assert_eq!(req, None); // nothing left to re-request
    assert_eq!(registry.soonest_due_handle(), None);

    // The in-flight wake arrives: its token is stale, nothing fires.
    let (batch, reissue) = registry.fire_timer(token, 20);
    assert!(batch.is_empty());
    assert_eq!(reissue, None);
}

#[test]
fn cancel_is_idempotent_and_reissues_for_next_record() {
    let mut registry = OneshotTimers::new();
    let (a, _) = registry.schedule_callback(OneshotTimerCallback::XhrTimeout(1), 10, SRC, 0);
    let (b, _) = registry.schedule_callback(OneshotTimerCallback::XhrTimeout(2), 50, SRC, 0);

    // Cancelling a record that is not the soonest issues nothing.
    assert_eq!(registry.unschedule_callback(b, 0), None);

    // Cancelling the soonest re-requests for the new soonest; here nothing
    // is left, so no request.
    assert_eq!(registry.unschedule_callback(a, 0), None);

    // Cancelling again, or cancelling a handle never scheduled, is a no-op.
    assert_eq!(registry.unschedule_callback(a, 0), None);
    assert_eq!(registry.unschedule_callback(OneshotTimerHandle(99), 0), None);

    let (c, _) = registry.schedule_callback(OneshotTimerCallback::XhrTimeout(3), 20, SRC, 0);
    let (d, _) = registry.schedule_callback(OneshotTimerCallback::XhrTimeout(4), 5, SRC, 0);
    // Handles are never reused.
    assert_eq!(c, OneshotTimerHandle(3));
    assert_eq!(d, OneshotTimerHandle(4));
    let req = registry.unschedule_callback(d, 0);
    assert_eq!(
        req,
        Some(WakeRequest { source: SRC, event_id: 6, delay_ms: 20 })
    );
}

#[test]
fn suspend_shifts_firing_by_elapsed_suspension() {
    // A timer due at t=100; suspend at t=20; resume at t=70.
    let mut registry = OneshotTimers::new();
    let (_a, _) = registry.schedule_callback(OneshotTimerCallback::XhrTimeout(1), 100, SRC, 0);
    registry.suspend(20);
    let req = registry.resume(70).unwrap();
    // The resume-time request still measures the delay against the
    // unadjusted clock: its wake arrives early, at wall time 100.
    assert_eq!(req.delay_ms, 30);

    // The timer now fires 50 later on the wall clock: at 100 it is not yet
    // due on the adjusted clock, and each early wake re-issues a request
    // with a fresh token, keeping the chain alive until the due time.
    let (batch, reissue) = registry.fire_timer(req.event_id, 100);
    assert!(batch.is_empty());
    let req = reissue.unwrap();
    let (batch, reissue) = registry.fire_timer(req.event_id, 149);
    assert!(batch.is_empty());
    let req = reissue.unwrap();
    // At t=150 — the original 100 plus the 50 spent suspended — it fires.
    let (batch, _) = registry.fire_timer(req.event_id, 150);
    assert_eq!(batch.len(), 1);
}

#[test]
fn suspend_and_resume_are_idempotent() {
    let mut registry = OneshotTimers::new();
    let (_a, req) = registry.schedule_callback(OneshotTimerCallback::XhrTimeout(1), 100, SRC, 0);
    let token = req.unwrap().event_id;

    registry.suspend(20);
    // A second suspend is a no-op: the suspension still dates from t=20.
    registry.suspend(40);

    // The wake dispatched before suspension is stale now.
    let (batch, reissue) = registry.fire_timer(token, 30);
    assert!(batch.is_empty());
    assert_eq!(reissue, None);

    let req = registry.resume(70).unwrap();
    // Resuming again is a no-op.
    assert_eq!(registry.resume(90), None);

    // Offset is 50 (70 - 20), not 30: at wall time 149 the adjusted clock
    // reads 99 and the timer, due at 100, must not fire; the early wake
    // re-issues a request instead.
    let (batch, reissue) = registry.fire_timer(req.event_id, 149);
    assert!(batch.is_empty());
    let req = reissue.unwrap();
    let (batch, _) = registry.fire_timer(req.event_id, 150);
    assert_eq!(batch.len(), 1);
}

#[test]
fn scheduling_while_suspended_issues_no_request() {
    let mut registry = OneshotTimers::new();
    registry.suspend(10);
    let (_a, req) = registry.schedule_callback(OneshotTimerCallback::XhrTimeout(1), 5, SRC, 10);
    assert_eq!(req, None);
    // The request comes with the resume instead. The record was scheduled
    // against the adjusted clock frozen at 10: due at 15 adjusted.
    let req = registry.resume(30).unwrap();
    assert_eq!(req.delay_ms, 0); // 15 due adjusted + 20 offset = 35 wall; spec floors 15-30 at 0
    let (batch, _) = registry.fire_timer(req.event_id, 35);
    assert_eq!(batch.len(), 1);
}

#[test]
fn interval_counter_is_its_own_handle_space() {
    let mut registry = OneshotTimers::new();
    let (h1, req) = registry.set_timeout_or_interval(
        TimerCallback::FunctionTimerCallback(7),
        vec![1, 2],
        25,
        IsInterval::NonInterval,
        SRC,
        0,
        false,
    );
    assert_eq!(h1, 1);
    assert_eq!(
        req,
        Some(WakeRequest { source: SRC, event_id: 1, delay_ms: 25 })
    );
    let (h2, _) = registry.set_timeout_or_interval(
        TimerCallback::StringTimerCallback(String::from("tick()")),
        vec![],
        5,
        IsInterval::NonInterval,
        SRC,
        0,
        false,
    );
    assert_eq!(h2, 2);
}

#[test]
fn negative_timeout_counts_as_zero() {
    let mut registry = OneshotTimers::new();
    let (_h, req) = registry.set_timeout_or_interval(
        TimerCallback::FunctionTimerCallback(7),
        vec![],
        -5,
        IsInterval::NonInterval,
        SRC,
        40,
        false,
    );
    assert_eq!(req.unwrap().delay_ms, 0);
}

#[test]
fn min_duration_throttle_applies_from_next_arming() {
    let mut registry = OneshotTimers::new();
    registry.slow_down(100);
    let (_h, req) = registry.set_timeout_or_interval(
        TimerCallback::FunctionTimerCallback(7),
        vec![],
        10,
        IsInterval::NonInterval,
        SRC,
        0,
        false,
    );
    assert_eq!(req.unwrap().delay_ms, 100);

    registry.speed_up();
    let (_h, req) = registry.set_timeout_or_interval(
        TimerCallback::FunctionTimerCallback(8),
        vec![],
        10,
        IsInterval::NonInterval,
        SRC,
        0,
        false,
    );
    // With the throttle removed the requested 10 ms stands; being sooner
    // than the throttled record still pending at 100, it is requested.
    assert_eq!(req.unwrap().delay_ms, 10);
}

#[test]
fn clear_unknown_handle_is_noop() {
    let mut registry = OneshotTimers::new();
    assert_eq!(registry.clear_timeout_or_interval(42, 0), None);
}
