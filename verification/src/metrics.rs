//! Streak metrics: last known temperature and humidity plus consecutive
//! success/failure counters, and the shared handle through which one writer
//! and any number of readers use them.

use vstd::prelude::*;
use vstd::rwlock::{RwLock, RwLockPredicate};

use std::sync::Arc;

use crate::exposition::{render_exposition, spec_exposition};
use crate::sensors::{DataPoint, ErrorKind};

verus! {

/// The four metric registers. Temperature and humidity hold the last
/// successfully observed reading (in tenths of a unit) and are never reset
/// by failures; the two counters track the current streak and reset each
/// other on phase transitions.
#[derive(Debug, Clone, Copy, PartialEq, Eq, Structural)]
pub struct MetricsState {
    pub temperature: i64,
    pub humidity: i64,
    pub ok_count: u64,
    pub error_count: u64,
}

/// Increment that stops at the machine limit instead of wrapping.
pub open spec fn spec_saturating_inc(c: u64) -> u64 {
    if c == u64::MAX {
        c
    } else {
        (c + 1) as u64
    }
}

impl MetricsState {
    /// The fresh state: nothing observed yet, all registers zero.
    pub open spec fn spec_empty() -> MetricsState {
        MetricsState { temperature: 0, humidity: 0, ok_count: 0, error_count: 0 }
    }

    /// What recording a success does: the reading is stored, the success
    /// streak grows and the failure streak resets.
    pub open spec fn spec_success(self, temperature: i64, humidity: i64) -> MetricsState {
        MetricsState {
            temperature: temperature,
            humidity: humidity,
            ok_count: spec_saturating_inc(self.ok_count),
            error_count: 0,
        }
    }

    /// What recording a failure does: the failure streak grows, the success
    /// streak resets, and the last known reading is kept untouched.
    pub open spec fn spec_failure(self) -> MetricsState {
        MetricsState {
            temperature: self.temperature,
            humidity: self.humidity,
            ok_count: 0,
            error_count: spec_saturating_inc(self.error_count),
        }
    }

    /// What one sampling outcome does to the registers.
    pub open spec fn spec_record(self, outcome: Result<DataPoint, ErrorKind>) -> MetricsState {
        match outcome {
            Ok(dp) => self.spec_success(dp.temperature, dp.humidity),
            Err(_) => self.spec_failure(),
        }
    }

    /// At most one of the two streak counters is non-zero at a time.
    pub open spec fn wf(self) -> bool {
        self.ok_count == 0 || self.error_count == 0
    }

    pub fn empty() -> (r: Self)
        ensures
            r == MetricsState::spec_empty(),
            r.wf(),
    {
        MetricsState { temperature: 0, humidity: 0, ok_count: 0, error_count: 0 }
    }

    /// Record a successful reading.
    pub fn record_success(&mut self, temperature: i64, humidity: i64)
        ensures
            *final(self) == old(self).spec_success(temperature, humidity),
            final(self).wf(),
    {
        self.temperature = temperature;
        self.humidity = humidity;
        if self.ok_count < u64::MAX {
            self.ok_count = self.ok_count + 1;
        }
        self.error_count = 0;
    }

    /// Record a failed reading.
    pub fn record_failure(&mut self)
        ensures
            *final(self) == old(self).spec_failure(),
            final(self).wf(),
    {
        if self.error_count < u64::MAX {
            self.error_count = self.error_count + 1;
        }
        self.ok_count = 0;
    }

    /// Record one sampling outcome.
    pub fn record(&mut self, outcome: Result<DataPoint, ErrorKind>)
        ensures
            *final(self) == old(self).spec_record(outcome),
            final(self).wf(),
    {
        match outcome {
            Ok(dp) => self.record_success(dp.temperature, dp.humidity),
            Err(_) => self.record_failure(),
        }
    }
}

/// The registers after a whole sequence of sampling outcomes, applied in
/// order to a starting state.
pub open spec fn spec_record_all(
    s: MetricsState,
    outcomes: Seq<Result<DataPoint, ErrorKind>>,
) -> MetricsState
    decreases outcomes.len(),
{
    if outcomes.len() == 0 {
        s
    } else {
        spec_record_all(s.spec_record(outcomes[0]), outcomes.drop_first())
    }
}

/// Successes accumulate: a run of successful reads grows the success streak
/// by its length, and, once at least one read happened, the failure streak
/// is zero and the registers hold the last reading.
pub proof fn lemma_success_run_from(s: MetricsState, outcomes: Seq<Result<DataPoint, ErrorKind>>)
    requires
        s.ok_count + outcomes.len() <= u64::MAX,
        forall|i: int| 0 <= i < outcomes.len() ==> outcomes[i] is Ok,
    ensures
        spec_record_all(s, outcomes).ok_count == s.ok_count + outcomes.len(),
        outcomes.len() > 0 ==> spec_record_all(s, outcomes).error_count == 0,
        outcomes.len() > 0 ==> spec_record_all(s, outcomes).temperature
            == outcomes.last()->Ok_0.temperature,
        outcomes.len() > 0 ==> spec_record_all(s, outcomes).humidity
            == outcomes.last()->Ok_0.humidity,
        outcomes.len() == 0 ==> spec_record_all(s, outcomes) == s,
    decreases outcomes.len(),
{
    if outcomes.len() > 0 {
        let s1 = s.spec_record(outcomes[0]);
        lemma_success_run_from(s1, outcomes.drop_first());
        if outcomes.len() > 1 {
            assert(outcomes.drop_first().last() == outcomes.last());
        }
    }
}

/// A run of N consecutive successful reads, begun while the success streak
/// was zero, leaves the success streak at exactly N, the failure streak at
/// zero, and the registers holding the last reading's values.
pub proof fn lemma_success_streak(s: MetricsState, outcomes: Seq<Result<DataPoint, ErrorKind>>)
    requires
        s.ok_count == 0,
        outcomes.len() > 0,
        outcomes.len() <= u64::MAX,
        forall|i: int| 0 <= i < outcomes.len() ==> outcomes[i] is Ok,
    ensures
        spec_record_all(s, outcomes).ok_count == outcomes.len(),
        spec_record_all(s, outcomes).error_count == 0,
        spec_record_all(s, outcomes).temperature == outcomes.last()->Ok_0.temperature,
        spec_record_all(s, outcomes).humidity == outcomes.last()->Ok_0.humidity,
{
    lemma_success_run_from(s, outcomes);
}

/// Failures accumulate and never touch the stored reading: a run of failed
/// reads grows the failure streak by its length, zeroes the success streak
/// once at least one read happened, and leaves temperature and humidity
/// exactly as they were before the run began.
pub proof fn lemma_failure_run_from(s: MetricsState, outcomes: Seq<Result<DataPoint, ErrorKind>>)
    requires
        s.error_count + outcomes.len() <= u64::MAX,
        forall|i: int| 0 <= i < outcomes.len() ==> outcomes[i] is Err,
    ensures
        spec_record_all(s, outcomes).error_count == s.error_count + outcomes.len(),
        outcomes.len() > 0 ==> spec_record_all(s, outcomes).ok_count == 0,
        spec_record_all(s, outcomes).temperature == s.temperature,
        spec_record_all(s, outcomes).humidity == s.humidity,
    decreases outcomes.len(),
{
    if outcomes.len() > 0 {
        lemma_failure_run_from(s.spec_record(outcomes[0]), outcomes.drop_first());
    }
}

/// A run of N consecutive failed reads, begun while the failure streak was
/// zero, leaves the failure streak at exactly N, the success streak at zero,
/// and temperature and humidity unchanged from before the run.
pub proof fn lemma_failure_streak(s: MetricsState, outcomes: Seq<Result<DataPoint, ErrorKind>>)
    requires
        s.error_count == 0,
        outcomes.len() > 0,
        outcomes.len() <= u64::MAX,
        forall|i: int| 0 <= i < outcomes.len() ==> outcomes[i] is Err,
    ensures
        spec_record_all(s, outcomes).error_count == outcomes.len(),
        spec_record_all(s, outcomes).ok_count == 0,
        spec_record_all(s, outcomes).temperature == s.temperature,
        spec_record_all(s, outcomes).humidity == s.humidity,
{
    lemma_failure_run_from(s, outcomes);
}

/// After any failure run, the success streak is zero, whatever the counts
/// were before.
pub proof fn lemma_failures_zero_ok(s: MetricsState, outcomes: Seq<Result<DataPoint, ErrorKind>>)
    requires
        outcomes.len() > 0,
        forall|i: int| 0 <= i < outcomes.len() ==> outcomes[i] is Err,
    ensures
        spec_record_all(s, outcomes).ok_count == 0,
    decreases outcomes.len(),
{
    let s1 = s.spec_record(outcomes[0]);
    if outcomes.len() > 1 {
        lemma_failures_zero_ok(s1, outcomes.drop_first());
    } else {
        assert(spec_record_all(s1, outcomes.drop_first()) == s1);
    }
}

/// A single success immediately after a failure run of any length resets the
/// failure streak to zero and sets the success streak to exactly one.
pub proof fn lemma_success_after_failures(
    s: MetricsState,
    outcomes: Seq<Result<DataPoint, ErrorKind>>,
    temperature: i64,
    humidity: i64,
)
    requires
        outcomes.len() > 0,
        forall|i: int| 0 <= i < outcomes.len() ==> outcomes[i] is Err,
    ensures
        spec_record_all(s, outcomes).spec_success(temperature, humidity).ok_count == 1,
        spec_record_all(s, outcomes).spec_success(temperature, humidity).error_count == 0,
{
    lemma_failures_zero_ok(s, outcomes);
}

/// The invariant every value stored in the shared registers satisfies.
pub struct MetricsInv;

impl RwLockPredicate<MetricsState> for MetricsInv {
    open spec fn inv(self, v: MetricsState) -> bool {
        v.wf()
    }
}

/// A shared handle to one set of metric registers. Handles may be cloned
/// freely; all clones see the same underlying registers. Any number of
/// readers may look at a consistent snapshot together, while a writer takes
/// the registers exclusively for the duration of one update. By convention
/// only the scheduled update action writes.
pub struct Metrics {
    lock: Arc<RwLock<MetricsState, MetricsInv>>,
}

impl Clone for Metrics {
    /// A clone shares the same underlying registers.
    fn clone(&self) -> (r: Self)
        ensures
            r == *self,
    {
        Metrics { lock: self.lock.clone() }
    }
}

impl Metrics {
    /// Fresh registers, all zero.
    pub fn new() -> Self {
        Metrics { lock: Arc::new(RwLock::new(MetricsState::empty(), Ghost(MetricsInv))) }
    }

    /// A consistent snapshot of the registers. Concurrent writers are
    /// excluded for the duration of the copy, so the snapshot always shows
    /// a state some whole prefix of updates produced.
    pub fn snapshot(&self) -> (r: MetricsState)
        ensures
            r.wf(),
    {
        let handle = self.lock.acquire_read();
        let r = *handle.borrow();
        handle.release_read();
        r
    }

    /// Record a successful reading, as [`MetricsState::record_success`]
    /// describes, holding the registers exclusively while writing.
    pub fn set_value(&self, temperature: i64, humidity: i64) {
        let (mut state, handle) = self.lock.acquire_write();
        state.record_success(temperature, humidity);
        handle.release_write(state);
    }

    /// Record a failed reading, as [`MetricsState::record_failure`]
    /// describes, holding the registers exclusively while writing.
    pub fn set_error(&self) {
        let (mut state, handle) = self.lock.acquire_write();
        state.record_failure();
        handle.release_write(state);
    }

    /// The last successfully observed temperature, in tenths of a degree.
    pub fn get_temperature(&self) -> i64 {
        self.snapshot().temperature
    }

    /// The last successfully observed humidity, in tenths of a percent.
    pub fn get_humidity(&self) -> i64 {
        self.snapshot().humidity
    }

    /// How many reads in a row have succeeded since the last failure.
    pub fn get_ok_count(&self) -> u64 {
        self.snapshot().ok_count
    }

    /// How many reads in a row have failed since the last success.
    pub fn get_error_count(&self) -> u64 {
        self.snapshot().error_count
    }
}

/// The registers together with their exposition: what a metrics consumer
/// holds.
pub struct Core {
    metrics: Metrics,
}

impl Core {
    /// The handle this core hands out.
    pub closed spec fn spec_metrics(&self) -> Metrics {
        self.metrics
    }

    pub fn new() -> Self {
        Core { metrics: Metrics::new() }
    }

    /// A handle to this core's registers, sharing their state.
    pub fn get_metrics(&self) -> (r: Metrics)
        ensures
            r == self.spec_metrics(),
    {
        self.metrics.clone()
    }

    /// The text exposition of a consistent snapshot of the registers. It is
    /// always produced, whatever the sensor has been doing: a metrics
    /// consumer never receives a missing scrape.
    pub fn to_string(&self) -> (r: String)
        ensures
            exists|s: MetricsState| s.wf() && r@ == spec_exposition(s),
    {
        let state = self.metrics.snapshot();
        let r = render_exposition(&state);
        proof {
            assert(state.wf() && r@ == spec_exposition(state));
        }
        r
    }
}

} // verus!
