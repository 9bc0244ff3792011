//! The observation cache entry: the most recent usable reading and/or the
//! current error streak, with the staleness eviction policy.

use vstd::prelude::*;

use crate::EVICTION_THRESHOLD;

verus! {

/// A successfully sampled reading. Temperature and humidity are held as
/// fixed-point values in tenths of a unit (tenths of a degree Celsius,
/// tenths of a percent), the sensor's native resolution.
#[derive(Debug, Clone, Copy, PartialEq, Eq, Structural)]
pub struct DataValue {
    pub temperature: i64,
    pub humidity: i64,
}

impl DataValue {
    pub fn new(temperature: i64, humidity: i64) -> (r: Self)
        ensures
            r.temperature == temperature,
            r.humidity == humidity,
    {
        DataValue { temperature, humidity }
    }
}

/// The closed set of failure kinds a sampling attempt can produce.
/// `Runtime` denotes an unexpected failure of the sampling call itself,
/// as opposed to an error reported by the sensor.
#[derive(Debug, Clone, Copy, PartialEq, Eq, Structural)]
pub enum DataErrorKind {
    Timeout,
    Integrity,
    IO,
    Runtime,
}

/// A run of consecutive failures: the most recent failure kind and how many
/// failures have happened in a row since the last success.
#[derive(Debug, Clone, Copy, PartialEq, Eq, Structural)]
pub struct DataError {
    pub last_error: DataErrorKind,
    pub error_count: usize,
}

/// The cache entry: the most recent usable reading, if any, and the current
/// error streak, if any. Both may be present only in the window between a
/// success and the eviction threshold.
#[derive(Debug, Clone, Copy, PartialEq, Eq, Structural)]
pub struct Observation {
    pub data_point: Option<DataValue>,
    pub data_error: Option<DataError>,
}

impl Observation {
    /// What recording a success does: the reading replaces the cached value
    /// and the error streak is cleared unconditionally.
    pub open spec fn spec_add_data(self, value: DataValue) -> Observation {
        Observation { data_point: Some(value), data_error: None }
    }

    /// What recording a failure does: the error streak is created or
    /// extended, its kind set to the newest failure, and the cached value is
    /// dropped once the streak exceeds the eviction threshold. The count
    /// saturates at the machine limit rather than wrapping.
    pub open spec fn spec_add_error(self, kind: DataErrorKind) -> Observation {
        let count: usize = match self.data_error {
            Some(e) => if e.error_count == usize::MAX {
                e.error_count
            } else {
                (e.error_count + 1) as usize
            },
            None => 1,
        };
        Observation {
            data_point: if count > EVICTION_THRESHOLD {
                None
            } else {
                self.data_point
            },
            data_error: Some(DataError { last_error: kind, error_count: count }),
        }
    }

    /// Every reachable observation keeps this shape: past the eviction
    /// threshold no cached value is served, and an error count is never zero.
    pub open spec fn wf(self) -> bool {
        &&& match self.data_error {
            Some(e) => {
                &&& e.error_count > 0
                &&& e.error_count > EVICTION_THRESHOLD ==> self.data_point is None
            },
            None => true,
        }
    }

    /// An empty observation: no reading yet, no failures yet.
    pub fn new() -> (r: Self)
        ensures
            r.data_point is None,
            r.data_error is None,
            r.wf(),
    {
        Observation { data_point: None, data_error: None }
    }

    /// Record a successful reading.
    pub fn add_data(&mut self, value: DataValue)
        ensures
            *final(self) == old(self).spec_add_data(value),
            final(self).wf(),
    {
        self.data_point = Some(value);
        self.data_error = None;
    }

    /// Record a failed reading.
    pub fn add_error(&mut self, kind: DataErrorKind)
        ensures
            *final(self) == old(self).spec_add_error(kind),
            final(self).wf(),
    {
        let count: usize = match &self.data_error {
            Some(e) => if e.error_count == usize::MAX {
                e.error_count
            } else {
                e.error_count + 1
            },
            None => 1,
        };
        if count > EVICTION_THRESHOLD {
            self.data_point = None;
        }
        self.data_error = Some(DataError { last_error: kind, error_count: count });
    }
}

/// The phases an observation moves through: `Idle` before the first outcome
/// (equivalent to `Healthy` with no value yet), `Healthy` after a success,
/// `Degraded` while failures accumulate but the cached value is still
/// served, `Evicted` once the value was discarded as too stale.
pub enum CachePhase {
    Idle,
    Healthy,
    Degraded(int),
    Evicted,
}

/// Which phase an observation is in.
pub open spec fn spec_phase(o: Observation) -> CachePhase {
    match o.data_error {
        None => match o.data_point {
            None => CachePhase::Idle,
            Some(_) => CachePhase::Healthy,
        },
        Some(e) => if e.error_count <= EVICTION_THRESHOLD {
            CachePhase::Degraded(e.error_count as int)
        } else {
            CachePhase::Evicted
        },
    }
}

/// The phase transitions: any success leads to `Healthy`; a failure starts a
/// streak at one, grows it while it stays within the eviction threshold, and
/// past the threshold leads to `Evicted`, which further failures never
/// leave. There is no terminal phase — the sensor can always recover
/// through a success.
pub proof fn lemma_phase_transitions(o: Observation, value: DataValue, kind: DataErrorKind)
    requires
        o.wf(),
    ensures
        spec_phase(o.spec_add_data(value)) is Healthy,
        (spec_phase(o) is Idle || spec_phase(o) is Healthy) ==> spec_phase(
            o.spec_add_error(kind),
        ) == CachePhase::Degraded(1),
        spec_phase(o) matches CachePhase::Degraded(n) ==> spec_phase(o.spec_add_error(kind)) == (
        if n + 1 <= EVICTION_THRESHOLD {
            CachePhase::Degraded(n + 1)
        } else {
            CachePhase::Evicted
        }),
        spec_phase(o) is Evicted ==> spec_phase(o.spec_add_error(kind)) is Evicted,
{
}

/// The observation after a whole run of failures, recorded in order.
pub open spec fn spec_add_error_all(o: Observation, kinds: Seq<DataErrorKind>) -> Observation
    decreases kinds.len(),
{
    if kinds.len() == 0 {
        o
    } else {
        spec_add_error_all(o.spec_add_error(kinds[0]), kinds.drop_first())
    }
}

/// How a failure run moves the cache: the streak count grows by the run's
/// length, the kind tracks the newest failure, and the cached value survives
/// exactly up to the eviction threshold.
pub proof fn lemma_error_run_from(o: Observation, kinds: Seq<DataErrorKind>)
    requires
        o.wf(),
        (match o.data_error {
            Some(e) => e.error_count,
            None => 0,
        }) + kinds.len() <= usize::MAX,
    ensures
        ({
            let before: int = match o.data_error {
                Some(e) => e.error_count as int,
                None => 0,
            };
            let r = spec_add_error_all(o, kinds);
            &&& r.wf()
            &&& kinds.len() == 0 ==> r == o
            &&& kinds.len() > 0 ==> {
                &&& r.data_error matches Some(e)
                    && e.error_count == before + kinds.len()
                    && e.last_error == kinds.last()
                &&& r.data_point == (if before + kinds.len() > EVICTION_THRESHOLD {
                    None::<DataValue>
                } else {
                    o.data_point
                })
            }
        }),
    decreases kinds.len(),
{
    if kinds.len() > 0 {
        let o1 = o.spec_add_error(kinds[0]);
        lemma_error_run_from(o1, kinds.drop_first());
        if kinds.len() > 1 {
            assert(kinds.drop_first().last() == kinds.last());
        }
    }
}

/// The staleness policy at its boundary: starting just after a success, the
/// cached value is still served through the tenth consecutive failure, is
/// gone from the eleventh on, and a single success at any point restores a
/// value and resets the streak.
pub proof fn lemma_cache_eviction(o: Observation, kinds: Seq<DataErrorKind>, value: DataValue)
    requires
        o.data_error is None,
        o.wf(),
        kinds.len() <= usize::MAX,
    ensures
        ({
            let r = spec_add_error_all(o, kinds);
            &&& 0 < kinds.len() <= EVICTION_THRESHOLD ==> r.data_point == o.data_point
            &&& kinds.len() > EVICTION_THRESHOLD ==> r.data_point is None
            &&& kinds.len() > 0 ==> (r.data_error matches Some(e) && e.error_count == kinds.len())
            &&& r.spec_add_data(value).data_point == Some(value)
            &&& r.spec_add_data(value).data_error is None
        }),
{
    lemma_error_run_from(o, kinds);
}

} // verus!
