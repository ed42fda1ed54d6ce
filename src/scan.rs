//! One scan cycle on one wireless device, as a state machine. The caller
//! performs each action (send the request, subscribe, read the results) and
//! hands back what happened as the next event; the machine decides.
//!
//! Completion is signalled by the device's last-scan timestamp changing. The
//! first timestamp seen after the request is always taken as the baseline,
//! never as completion, since it may belong to an earlier scan. The wait is
//! bounded: once the timeout has passed since the request, the cycle fails.
use vstd::prelude::*;
use crate::device::BusError;

verus! {

/// How long a cycle waits for the scan to complete, in milliseconds.
pub const SCAN_TIMEOUT_MS: u64 = 30000;

/// Why a scan cycle ended without results.
#[derive(PartialEq, Eq, Structural, Clone, Copy, Debug)]
pub enum ScanError {
    /// A scan is already running on the device; it may be tried later.
    Busy,
    /// The timestamp did not change before the timeout.
    Timeout,
    /// The cycle was cancelled by its owner.
    Cancelled,
    /// The scan request failed on the bus.
    Bus(BusError),
}

/// Where a scan cycle stands.
#[derive(PartialEq, Eq, Structural, Clone, Copy, Debug)]
pub enum ScanPhase {
    Idle,
    ScanRequested,
    AwaitingCompletion,
    Complete,
    Failed(ScanError),
}

/// The answer to the scan request.
#[derive(PartialEq, Eq, Structural, Clone, Copy, Debug)]
pub enum RequestOutcome {
    Accepted,
    /// Refused because a scan is already in progress.
    Busy,
    Failed(BusError),
}

/// Something that happened to the cycle. Times are milliseconds on a
/// monotonic clock.
#[derive(PartialEq, Eq, Structural, Clone, Copy, Debug)]
pub enum ScanEvent {
    /// The owner starts the cycle.
    Start { now_ms: u64 },
    /// The scan request was answered.
    RequestAnswered(RequestOutcome),
    /// The last-scan timestamp was reported with this value.
    Notification { value: i64, now_ms: u64 },
    /// Time passed with no notification.
    Tick { now_ms: u64 },
    /// The owner gives up on the cycle.
    Cancel,
}

/// What the owner of the cycle has to do next.
#[derive(PartialEq, Eq, Structural, Clone, Copy, Debug)]
pub enum ScanAction {
    /// Send the scan request, with an empty option set.
    RequestScan,
    /// Subscribe to the last-scan timestamp and wait for notifications.
    Subscribe,
    /// Keep waiting for a notification or a tick.
    Wait,
    /// Release the subscription and read the access points.
    ReadAccessPoints,
    /// Release what the cycle holds; it ended with this error.
    Abort(ScanError),
    /// The event does not apply in the current phase.
    Ignore,
}

/// The state of one cycle. Each cycle owns its own state; nothing is shared
/// between devices.
#[derive(PartialEq, Eq, Structural, Clone, Copy, Debug)]
pub struct ScanCycle {
    pub phase: ScanPhase,
    /// The baseline timestamp, once the first notification has come.
    pub last_observed: Option<i64>,
    /// When the scan was requested.
    pub started_ms: u64,
    pub timeout_ms: u64,
}

/// The timeout has run out at `now_ms`.
pub open spec fn expired(c: ScanCycle, now_ms: u64) -> bool {
    now_ms - c.started_ms >= c.timeout_ms
}

pub open spec fn fail(c: ScanCycle, e: ScanError) -> (ScanCycle, ScanAction) {
    (ScanCycle { phase: ScanPhase::Failed(e), ..c }, ScanAction::Abort(e))
}

/// The transition table: the next state and the action for an event.
pub open spec fn next(c: ScanCycle, e: ScanEvent) -> (ScanCycle, ScanAction) {
    match (c.phase, e) {
        (ScanPhase::Idle, ScanEvent::Start { now_ms }) => (
            ScanCycle {
                phase: ScanPhase::ScanRequested,
                last_observed: None,
                started_ms: now_ms,
                timeout_ms: c.timeout_ms,
            },
            ScanAction::RequestScan,
        ),
        (ScanPhase::ScanRequested, ScanEvent::RequestAnswered(o)) => match o {
            RequestOutcome::Accepted => (
                ScanCycle { phase: ScanPhase::AwaitingCompletion, ..c },
                ScanAction::Subscribe,
            ),
            RequestOutcome::Busy => fail(c, ScanError::Busy),
            RequestOutcome::Failed(b) => fail(c, ScanError::Bus(b)),
        },
        (ScanPhase::AwaitingCompletion, ScanEvent::Notification { value, now_ms }) => {
            if expired(c, now_ms) {
                fail(c, ScanError::Timeout)
            } else {
                match c.last_observed {
                    None => (ScanCycle { last_observed: Some(value), ..c }, ScanAction::Wait),
                    Some(p) => if p != value {
                        (ScanCycle { phase: ScanPhase::Complete, ..c }, ScanAction::ReadAccessPoints)
                    } else {
                        (c, ScanAction::Wait)
                    },
                }
            }
        },
        (ScanPhase::ScanRequested, ScanEvent::Tick { now_ms })
        | (ScanPhase::AwaitingCompletion, ScanEvent::Tick { now_ms }) => {
            if expired(c, now_ms) {
                fail(c, ScanError::Timeout)
            } else {
                (c, ScanAction::Wait)
            }
        },
        (ScanPhase::Idle, ScanEvent::Cancel)
        | (ScanPhase::ScanRequested, ScanEvent::Cancel)
        | (ScanPhase::AwaitingCompletion, ScanEvent::Cancel) => fail(c, ScanError::Cancelled),
        _ => (c, ScanAction::Ignore),
    }
}

/// The state after timestamps `values` were reported one by one, all at
/// `now_ms`.
pub open spec fn observe(c: ScanCycle, values: Seq<i64>, now_ms: u64) -> ScanCycle
    decreases values.len(),
{
    if values.len() == 0 {
        c
    } else {
        next(observe(c, values.drop_last(), now_ms), ScanEvent::Notification { value: values.last(), now_ms }).0
    }
}

/// Two neighbouring values of `values` before position `k` differ.
pub open spec fn changes_before(values: Seq<i64>, k: int) -> bool {
    exists|i: int| 1 <= i < k && #[trigger] values[i] != values[i - 1]
}

/// While the reported timestamps stay at the baseline the cycle keeps
/// waiting with that baseline; once one differs from the one before it, the
/// cycle is complete.
proof fn lemma_observe_prefix(c: ScanCycle, values: Seq<i64>, now_ms: u64, k: int)
    requires
        c.phase == ScanPhase::AwaitingCompletion,
        c.last_observed is None,
        !expired(c, now_ms),
        0 <= k <= values.len(),
    ensures
        k == 0 ==> observe(c, values.take(k), now_ms) == c,
        k >= 1 && !changes_before(values, k) ==> {
            &&& observe(c, values.take(k), now_ms) == (ScanCycle {
                last_observed: Some(values[0]),
                ..c
            })
            &&& forall|j: int| 0 <= j < k ==> #[trigger] values[j] == values[0]
        },
        changes_before(values, k) ==> observe(c, values.take(k), now_ms).phase
            == ScanPhase::Complete,
    decreases k,
{
    if k == 0 {
        assert(values.take(0) =~= Seq::<i64>::empty());
    } else {
        lemma_observe_prefix(c, values, now_ms, k - 1);
        assert(values.take(k).drop_last() =~= values.take(k - 1));
        let prev = observe(c, values.take(k - 1), now_ms);
        if changes_before(values, k - 1) {
            let i = choose|i: int| 1 <= i < k - 1 && #[trigger] values[i] != values[i - 1];
            assert(1 <= i < k && values[i] != values[i - 1]);
        } else if k == 1 {
            assert(values.take(0) =~= Seq::<i64>::empty());
            assert(!changes_before(values, 1));
        } else {
            assert(prev.last_observed == Some(values[0]));
            if values[k - 1] != values[0] {
                assert(values[k - 1] != values[k - 2]);
            } else {
                assert forall|i: int| 1 <= i < k implies #[trigger] values[i] == values[i - 1] by {
                    if i < k - 1 {
                        assert(!(values[i] != values[i - 1]));
                    }
                }
            }
        }
    }
}

/// Fed timestamps one by one after the request was accepted, a cycle is
/// complete exactly once some timestamp has differed from the one before it:
/// the first timestamp alone never completes it, and completion comes at the
/// first change.
pub proof fn lemma_completes_at_first_change(c: ScanCycle, values: Seq<i64>, now_ms: u64, k: int)
    requires
        c.phase == ScanPhase::AwaitingCompletion,
        c.last_observed is None,
        !expired(c, now_ms),
        0 <= k <= values.len(),
    ensures
        observe(c, values.take(k), now_ms).phase == ScanPhase::Complete <==> changes_before(
            values,
            k,
        ),
{
    lemma_observe_prefix(c, values, now_ms, k);
}

/// A cycle whose timestamp never changes does not wait forever: however many
/// equal timestamps came, it is still waiting, and the first tick once the
/// timeout has run out fails it with `Timeout`.
pub proof fn lemma_unchanged_timestamp_times_out(
    c: ScanCycle,
    value: i64,
    n: nat,
    now_ms: u64,
    later_ms: u64,
)
    requires
        c.phase == ScanPhase::AwaitingCompletion,
        c.last_observed is None,
        !expired(c, now_ms),
        expired(c, later_ms),
    ensures
        observe(c, Seq::new(n, |i: int| value), now_ms).phase == ScanPhase::AwaitingCompletion,
        next(observe(c, Seq::new(n, |i: int| value), now_ms), ScanEvent::Tick { now_ms: later_ms })
            == fail(observe(c, Seq::new(n, |i: int| value), now_ms), ScanError::Timeout),
{
    let values = Seq::new(n, |i: int| value);
    lemma_observe_prefix(c, values, now_ms, n as int);
    assert(values.take(n as int) =~= values);
    if changes_before(values, n as int) {
        let i = choose|i: int| 1 <= i < n && #[trigger] values[i] != values[i - 1];
        assert(values[i] == values[i - 1]);
    }
}

impl ScanCycle {
    /// A cycle that has not started, with the given timeout.
    pub fn new(timeout_ms: u64) -> (r: ScanCycle)
        ensures
            r == (ScanCycle { phase: ScanPhase::Idle, last_observed: None, started_ms: 0, timeout_ms }),
    {
        ScanCycle { phase: ScanPhase::Idle, last_observed: None, started_ms: 0, timeout_ms }
    }

    /// Advances the cycle by one event and says what to do next.
    pub fn step(&mut self, event: ScanEvent) -> (r: ScanAction)
        ensures
            (*final(self), r) == next(*old(self), event),
    {
        let c = *self;
        let (n, a) = match (c.phase, event) {
            (ScanPhase::Idle, ScanEvent::Start { now_ms }) => (
                ScanCycle {
                    phase: ScanPhase::ScanRequested,
                    last_observed: None,
                    started_ms: now_ms,
                    timeout_ms: c.timeout_ms,
                },
                ScanAction::RequestScan,
            ),
            (ScanPhase::ScanRequested, ScanEvent::RequestAnswered(o)) => match o {
                RequestOutcome::Accepted => (
                    ScanCycle { phase: ScanPhase::AwaitingCompletion, ..c },
                    ScanAction::Subscribe,
                ),
                RequestOutcome::Busy => Self::failed(c, ScanError::Busy),
                RequestOutcome::Failed(b) => Self::failed(c, ScanError::Bus(b)),
            },
            (ScanPhase::AwaitingCompletion, ScanEvent::Notification { value, now_ms }) => {
                if Self::timed_out(c, now_ms) {
                    Self::failed(c, ScanError::Timeout)
                } else {
                    match c.last_observed {
                        None => (ScanCycle { last_observed: Some(value), ..c }, ScanAction::Wait),
                        Some(p) => if p != value {
                            (
                                ScanCycle { phase: ScanPhase::Complete, ..c },
                                ScanAction::ReadAccessPoints,
                            )
                        } else {
                            (c, ScanAction::Wait)
                        },
                    }
                }
            },
            (ScanPhase::ScanRequested, ScanEvent::Tick { now_ms })
            | (ScanPhase::AwaitingCompletion, ScanEvent::Tick { now_ms }) => {
                if Self::timed_out(c, now_ms) {
                    Self::failed(c, ScanError::Timeout)
                } else {
                    (c, ScanAction::Wait)
                }
            },
            (ScanPhase::Idle, ScanEvent::Cancel)
            | (ScanPhase::ScanRequested, ScanEvent::Cancel)
            | (ScanPhase::AwaitingCompletion, ScanEvent::Cancel) => Self::failed(
                c,
                ScanError::Cancelled,
            ),
            _ => (c, ScanAction::Ignore),
        };
        *self = n;
        a
    }

    fn timed_out(c: ScanCycle, now_ms: u64) -> (r: bool)
        ensures
            r == expired(c, now_ms),
    {
        now_ms >= c.started_ms && now_ms - c.started_ms >= c.timeout_ms
    }

    fn failed(c: ScanCycle, e: ScanError) -> (r: (ScanCycle, ScanAction))
        ensures
            r == fail(c, e),
    {
        (ScanCycle { phase: ScanPhase::Failed(e), ..c }, ScanAction::Abort(e))
    }

    /// The cycle has ended, with results to read or with an error.
    pub fn is_finished(&self) -> (r: bool)
        ensures
            r == (self.phase is Complete || self.phase is Failed),
    {
        match self.phase {
            ScanPhase::Complete | ScanPhase::Failed(_) => true,
            _ => false,
        }
    }
}

} // verus!
