//! Sensor values, failure kinds, and the sensor abstraction with its
//! deterministic test doubles. The physical sensor performs hardware I/O and
//! lives with the surrounding program, behind the same trait.

use vstd::prelude::*;

verus! {

/// A successfully sampled temperature/humidity pair, in tenths of a unit
/// (tenths of a degree Celsius, tenths of a percent) — the sensor's native
/// resolution.
#[derive(Debug, Clone, Copy, PartialEq, Eq, Structural)]
pub struct DataPoint {
    pub temperature: i64,
    pub humidity: i64,
}

impl DataPoint {
    pub fn new(temperature: i64, humidity: i64) -> (r: Self)
        ensures
            r.temperature == temperature,
            r.humidity == humidity,
    {
        DataPoint { temperature, humidity }
    }
}

/// The closed set of failure kinds a sampling attempt can produce.
/// `Runtime` denotes an unexpected failure of the sampling call itself.
#[derive(Debug, Clone, Copy, PartialEq, Eq, Structural)]
pub enum ErrorKind {
    Timeout,
    Integrity,
    IO,
    Runtime,
}

impl ErrorKind {
    /// The short human-readable name of this failure kind.
    pub fn name(&self) -> (r: String)
        ensures
            *self is Timeout ==> r@ == "timeout"@,
            *self is Integrity ==> r@ == "integrity"@,
            *self is IO ==> r@ == "IO"@,
            *self is Runtime ==> r@ == "runtime"@,
    {
        match self {
            ErrorKind::Timeout => "timeout".to_owned(),
            ErrorKind::Integrity => "integrity".to_owned(),
            ErrorKind::IO => "IO".to_owned(),
            ErrorKind::Runtime => "runtime".to_owned(),
        }
    }
}

/// A source of temperature and humidity measurements.
///
/// There is only one real-world implementation (the GPIO-attached sensor in
/// the surrounding program); the trait keeps the sampling logic testable
/// with the deterministic sensors below. A read may mutate the sensor's own
/// bookkeeping but makes no promise about its outcome.
pub trait Sensor {
    /// Read temperature and humidity once.
    fn read(&mut self) -> Result<DataPoint, ErrorKind>;
}

/// Sensor that always returns a fixed value. Only used for testing.
#[derive(Debug, Clone, Copy, PartialEq, Eq, Structural)]
pub struct OkSensor {
    pub value: DataPoint,
}

impl OkSensor {
    pub fn new(temperature: i64, humidity: i64) -> (r: Self)
        ensures
            r.value.temperature == temperature,
            r.value.humidity == humidity,
    {
        OkSensor { value: DataPoint { temperature, humidity } }
    }
}

impl Sensor for OkSensor {
    fn read(&mut self) -> Result<DataPoint, ErrorKind> {
        Ok(self.value)
    }
}

/// Sensor that always returns a fixed error. Only used for testing.
#[derive(Debug, Clone, Copy, PartialEq, Eq, Structural)]
pub struct ErrSensor {
    pub error: ErrorKind,
}

impl ErrSensor {
    pub fn new(error: ErrorKind) -> (r: Self)
        ensures
            r.error == error,
    {
        ErrSensor { error }
    }
}

impl Sensor for ErrSensor {
    fn read(&mut self) -> Result<DataPoint, ErrorKind> {
        Err(self.error)
    }
}

/// Sensor that plays back a fixed sequence of outcomes, then keeps
/// reporting a runtime failure. Only used for testing.
pub struct SequenceSensor {
    pub sequence: Vec<Result<DataPoint, ErrorKind>>,
    pub position: usize,
}

impl SequenceSensor {
    pub fn new(sequence: Vec<Result<DataPoint, ErrorKind>>) -> (r: Self)
        ensures
            r.sequence@ == sequence@,
            r.position == 0,
    {
        SequenceSensor { sequence, position: 0 }
    }
}

impl Sensor for SequenceSensor {
    fn read(&mut self) -> Result<DataPoint, ErrorKind> {
        if self.position < self.sequence.len() {
            let value = self.sequence[self.position];
            self.position = self.position + 1;
            value
        } else {
            Err(ErrorKind::Runtime)
        }
    }
}

} // verus!
