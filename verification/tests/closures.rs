use meteostation_pi::closures::UpdateClosure;
use meteostation_pi::metrics::Core;
use meteostation_pi::sensors::{DataPoint, ErrSensor, ErrorKind, OkSensor, SequenceSensor};

// Register values are fixed-point, in tenths of a unit.
const TEST_TEMPERATURE: i64 = 240;
const TEST_HUMIDITY: i64 = 551;

#[test]
fn test_update_closure_ok() {
    // given a sensor that always return data without errors
    let ok_sensor = OkSensor::new(TEST_TEMPERATURE, TEST_HUMIDITY);
    // and a core instance
    let core = Core::new();
    let metrics1 = core.get_metrics();
    let metrics2 = core.get_metrics();
    // and an update closure with the sensor above
    let mut update_fn = UpdateClosure::new(ok_sensor, metrics1);

    // when update function is called several times in a row
    let iterations = 5;
    for _ in 0..iterations {
        update_fn.invoke();
    }

    // then temperature and humidity are properly recorded
    assert_eq!(metrics2.get_temperature(), TEST_TEMPERATURE);
    assert_eq!(metrics2.get_humidity(), TEST_HUMIDITY);
    // and ok count equals to the number of iterations
    assert_eq!(metrics2.get_ok_count(), iterations as u64);
    // and there were no errors registered
    assert_eq!(metrics2.get_error_count(), 0);
}

#[test]
fn test_update_closure_err() {
    // given a sensor that always returns errors
    let err_sensor = ErrSensor::new(ErrorKind::Integrity);
    // and a core instance
    let core = Core::new();
    let metrics1 = core.get_metrics();
    let metrics2 = core.get_metrics();
    // and an update closure with the sensor above
    let mut update_fn = UpdateClosure::new(err_sensor, metrics1);

    // when update function is called several times in a row
    let iterations = 5;
    for _ in 0..iterations {
        update_fn.invoke();
    }

    // then temperature and humidity have default value 0
    assert_eq!(metrics2.get_temperature(), 0);
    assert_eq!(metrics2.get_humidity(), 0);
    // and no successful observations were registered
    assert_eq!(metrics2.get_ok_count(), 0);
    // and error count equals to the number of iterations
    assert_eq!(metrics2.get_error_count(), iterations as u64);
}

#[test]
fn test_update_closure_mixed() {
    // given a sensor with predefined results sequence
    let mut results = Vec::new();
    results.push(Result::Err(ErrorKind::IO));
    results.push(Result::Ok(DataPoint::new(TEST_TEMPERATURE - 10, TEST_HUMIDITY - 10)));
    results.push(Result::Ok(DataPoint::new(TEST_TEMPERATURE, TEST_HUMIDITY)));
    results.push(Result::Err(ErrorKind::Integrity));
    let sensor = SequenceSensor::new(results);
    // and a core instance
    let core = Core::new();
    let metrics1 = core.get_metrics();
    let metrics2 = core.get_metrics();
    // and an update closure with the sensor above
    let mut update_fn = UpdateClosure::new(sensor, metrics1);

    // when update function is called 3 times in a row
    for _ in 0..3 {
        update_fn.invoke();
    }
    // then temperature and humidity are taken from the 3rd value
    assert_eq!(metrics2.get_temperature(), TEST_TEMPERATURE);
    assert_eq!(metrics2.get_humidity(), TEST_HUMIDITY);
    // and ok count equals to 2 because we had only 2 non-error data points in a row
    assert_eq!(metrics2.get_ok_count(), 2);
    // and error count is reset because the previous result was successful
    assert_eq!(metrics2.get_error_count(), 0);

    // and when update function is called one more time
    update_fn.invoke();
    // then temperature and humidity are taken from the last successful execution
    assert_eq!(metrics2.get_temperature(), TEST_TEMPERATURE);
    assert_eq!(metrics2.get_humidity(), TEST_HUMIDITY);
    // and ok count is reset on error
    assert_eq!(metrics2.get_ok_count(), 0);
    // and error count is increased
    assert_eq!(metrics2.get_error_count(), 1);
}

#[test]
fn one_outcome_per_tick_scenario() {
    // the scripted sequence: a failure, two successes, a failure
    let mut results = Vec::new();
    results.push(Result::Err(ErrorKind::IO));
    results.push(Result::Ok(DataPoint::new(230, 540)));
    results.push(Result::Ok(DataPoint::new(240, 550)));
    results.push(Result::Err(ErrorKind::Integrity));
    let sensor = SequenceSensor::new(results);
    let core = Core::new();
    let metrics = core.get_metrics();
    let mut update_fn = UpdateClosure::new(sensor, core.get_metrics());

    // after three ticks: two successes in a row, last reading stored
    for _ in 0..3 {
        update_fn.invoke();
    }
    assert_eq!(metrics.get_ok_count(), 2);
    assert_eq!(metrics.get_error_count(), 0);
    assert_eq!(metrics.get_temperature(), 240);
    assert_eq!(metrics.get_humidity(), 550);

    // after the fourth tick: streaks flip, values stay
    update_fn.invoke();
    assert_eq!(metrics.get_ok_count(), 0);
    assert_eq!(metrics.get_error_count(), 1);
    assert_eq!(metrics.get_temperature(), 240);
    assert_eq!(metrics.get_humidity(), 550);
}
