use wizi::device::BusError;
use wizi::scan::{
    RequestOutcome, ScanAction, ScanCycle, ScanError, ScanEvent, ScanPhase, SCAN_TIMEOUT_MS,
};

fn accepted(now_ms: u64) -> ScanCycle {
    let mut c = ScanCycle::new(SCAN_TIMEOUT_MS);
    assert_eq!(c.step(ScanEvent::Start { now_ms }), ScanAction::RequestScan);
    assert_eq!(c.phase, ScanPhase::ScanRequested);
    assert_eq!(
        c.step(ScanEvent::RequestAnswered(RequestOutcome::Accepted)),
        ScanAction::Subscribe
    );
    assert_eq!(c.phase, ScanPhase::AwaitingCompletion);
    c
}

#[test]
fn completes_on_first_changed_timestamp() {
    let mut c = accepted(1000);
    let values = [100i64, 100, 100, 105];
    let mut actions = Vec::new();
    for (i, v) in values.iter().enumerate() {
        actions.push(c.step(ScanEvent::Notification { value: *v, now_ms: 1000 + i as u64 }));
    }
    assert_eq!(
        actions,
        vec![ScanAction::Wait, ScanAction::Wait, ScanAction::Wait, ScanAction::ReadAccessPoints]
    );
    assert_eq!(c.phase, ScanPhase::Complete);
    assert!(c.is_finished());
}

#[test]
fn first_notification_alone_never_completes() {
    let mut c = accepted(0);
    assert_eq!(c.step(ScanEvent::Notification { value: 7, now_ms: 1 }), ScanAction::Wait);
    assert_eq!(c.phase, ScanPhase::AwaitingCompletion);
    assert_eq!(c.last_observed, Some(7));
    assert!(!c.is_finished());
}

#[test]
fn unchanged_timestamp_times_out() {
    let mut c = accepted(0);
    for t in 0..100u64 {
        let a = c.step(ScanEvent::Notification { value: 100, now_ms: t * 100 });
        assert_eq!(a, ScanAction::Wait);
    }
    assert_eq!(c.step(ScanEvent::Tick { now_ms: 29_999 }), ScanAction::Wait);
    assert_eq!(
        c.step(ScanEvent::Tick { now_ms: 30_000 }),
        ScanAction::Abort(ScanError::Timeout)
    );
    assert_eq!(c.phase, ScanPhase::Failed(ScanError::Timeout));
}

#[test]
fn late_notification_times_out_even_if_changed() {
    let mut c = accepted(500);
    c.step(ScanEvent::Notification { value: 1, now_ms: 600 });
    assert_eq!(
        c.step(ScanEvent::Notification { value: 2, now_ms: 30_500 }),
        ScanAction::Abort(ScanError::Timeout)
    );
}

#[test]
fn busy_request_ends_cycle() {
    let mut c = ScanCycle::new(SCAN_TIMEOUT_MS);
    c.step(ScanEvent::Start { now_ms: 0 });
    assert_eq!(
        c.step(ScanEvent::RequestAnswered(RequestOutcome::Busy)),
        ScanAction::Abort(ScanError::Busy)
    );
    assert_eq!(c.phase, ScanPhase::Failed(ScanError::Busy));
}

#[test]
fn failed_request_reports_bus_error() {
    let mut c = ScanCycle::new(SCAN_TIMEOUT_MS);
    c.step(ScanEvent::Start { now_ms: 0 });
    assert_eq!(
        c.step(ScanEvent::RequestAnswered(RequestOutcome::Failed(BusError::Unreachable))),
        ScanAction::Abort(ScanError::Bus(BusError::Unreachable))
    );
}

#[test]
fn cancel_while_waiting() {
    let mut c = accepted(0);
    c.step(ScanEvent::Notification { value: 3, now_ms: 1 });
    assert_eq!(c.step(ScanEvent::Cancel), ScanAction::Abort(ScanError::Cancelled));
    assert_eq!(c.phase, ScanPhase::Failed(ScanError::Cancelled));
}

#[test]
fn complete_cycle_ignores_further_events() {
    let mut c = accepted(0);
    c.step(ScanEvent::Notification { value: 10, now_ms: 1 });
    c.step(ScanEvent::Notification { value: 42, now_ms: 2 });
    let done = c;
    assert_eq!(c.step(ScanEvent::Notification { value: 50, now_ms: 3 }), ScanAction::Ignore);
    assert_eq!(c.step(ScanEvent::Cancel), ScanAction::Ignore);
    assert_eq!(c, done);
}

#[test]
fn notification_before_request_answer_is_ignored() {
    let mut c = ScanCycle::new(SCAN_TIMEOUT_MS);
    c.step(ScanEvent::Start { now_ms: 0 });
    assert_eq!(c.step(ScanEvent::Notification { value: 1, now_ms: 1 }), ScanAction::Ignore);
    assert_eq!(c.phase, ScanPhase::ScanRequested);
}
