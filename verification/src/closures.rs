//! The update action: the named component the scheduler runs on every tick.
//! It holds the sensor and a handle to the shared registers, reads once, and
//! records the outcome — no retries; the next attempt happens on the next
//! scheduled tick.

use vstd::prelude::*;

use crate::metrics::Metrics;
use crate::sensors::Sensor;

verus! {

/// An update action bound to a sensor and a metrics handle.
pub struct UpdateClosure<S> {
    sensor: S,
    metrics: Metrics,
}

impl<S: Sensor> UpdateClosure<S> {
    /// The sensor this action reads.
    pub closed spec fn spec_sensor(&self) -> S {
        self.sensor
    }

    /// The handle this action records into.
    pub closed spec fn spec_metrics(&self) -> Metrics {
        self.metrics
    }

    pub fn new(sensor: S, metrics: Metrics) -> (r: Self)
        ensures
            r.spec_sensor() == sensor,
            r.spec_metrics() == metrics,
    {
        UpdateClosure { sensor, metrics }
    }

    /// One tick: read the sensor once and record the outcome in the shared
    /// registers — a success through [`Metrics::set_value`], a failure
    /// through [`Metrics::set_error`], which transition the registers as
    /// [`crate::metrics::MetricsState::spec_record`] describes. The action
    /// always records into the same registers it was built with.
    pub fn invoke(&mut self)
        ensures
            final(self).spec_metrics() == old(self).spec_metrics(),
    {
        match self.sensor.read() {
            Ok(point) => self.metrics.set_value(point.temperature, point.humidity),
            Err(_) => self.metrics.set_error(),
        }
    }
}

} // verus!
