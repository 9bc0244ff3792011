//! The shared observation cache: one writer (the scheduled update action)
//! and any number of concurrent readers, each seeing a consistent,
//! well-formed snapshot.

use vstd::prelude::*;
use vstd::rwlock::{RwLock, RwLockPredicate};

use std::sync::Arc;

use crate::observation::{DataErrorKind, DataValue, Observation};

verus! {

/// Signals that a writer terminated abnormally while holding exclusive
/// access, leaving the cache contents in an undefined partial-write state.
/// No recovery is attempted: a reader surfaces it as "sensor unavailable".
#[derive(Debug, Clone, Copy, PartialEq, Eq, Structural)]
pub struct PoisonedError;

/// The invariant every value stored in the cache satisfies.
pub struct CacheInv;

impl RwLockPredicate<Observation> for CacheInv {
    open spec fn inv(self, v: Observation) -> bool {
        v.wf()
    }
}

/// A shared handle to one observation cache. Handles may be cloned freely;
/// all clones see the same cache. Any number of concurrent readers may
/// proceed together, while an update excludes all readers and other writers
/// for its duration. By convention only the scheduled update action writes.
pub struct ObservationCache {
    lock: Arc<RwLock<Observation, CacheInv>>,
}

impl Clone for ObservationCache {
    /// A clone shares the same underlying cache.
    fn clone(&self) -> (r: Self)
        ensures
            r == *self,
    {
        ObservationCache { lock: self.lock.clone() }
    }
}

impl ObservationCache {
    /// An empty cache: no reading yet, no failures yet.
    pub fn new() -> Self {
        ObservationCache { lock: Arc::new(RwLock::new(Observation::new(), Ghost(CacheInv))) }
    }

    /// A snapshot copy of the current state. Every update here is verified
    /// to run to completion, so a writer can never die mid-update and
    /// reading always succeeds; the poisoned case remains in the signature
    /// for the callers that surface it.
    pub fn read(&self) -> (r: Result<Observation, PoisonedError>)
        ensures
            r matches Ok(o) && o.wf(),
    {
        let handle = self.lock.acquire_read();
        let observation = *handle.borrow();
        handle.release_read();
        Ok(observation)
    }

    /// The only mutation entry point: record one sampling outcome, holding
    /// the cache exclusively while writing. A success replaces the cached
    /// value and clears the error streak; a failure extends the error streak
    /// and evicts the cached value past the staleness threshold, as
    /// [`Observation::spec_add_data`] and [`Observation::spec_add_error`]
    /// describe.
    pub fn update(&self, outcome: Result<DataValue, DataErrorKind>) {
        let (mut observation, handle) = self.lock.acquire_write();
        match outcome {
            Ok(value) => observation.add_data(value),
            Err(kind) => observation.add_error(kind),
        }
        handle.release_write(observation);
    }
}

} // verus!
