use env_monitor::clock::{timestamp_from, unix_timestamp};
use env_monitor::error::SensorError;
use std::time::{Duration, SystemTime, UNIX_EPOCH};

#[test]
fn clock_reading_is_handed_on() {
    assert_eq!(timestamp_from(Ok(1_700_000_000)).unwrap(), 1_700_000_000);
    assert_eq!(timestamp_from(Ok(0)).unwrap(), 0);
    assert_eq!(timestamp_from(Ok(u64::MAX)).unwrap(), u64::MAX);
}

#[test]
fn clock_before_the_epoch_is_a_time_error() {
    let later = UNIX_EPOCH + Duration::from_secs(60);
    let cause = UNIX_EPOCH.duration_since(later).unwrap_err();
    let rendered = cause.to_string();
    assert!(!rendered.is_empty());
    match timestamp_from(Err(cause)) {
        Err(SensorError::SensorError(text)) => {
            assert_eq!(text, format!("Time error: {}", rendered));
        }
        other => panic!("unexpected outcome: {:?}", other),
    }
}

#[test]
fn wall_clock_is_read_in_seconds_since_the_epoch() {
    let before = SystemTime::now().duration_since(UNIX_EPOCH).unwrap().as_secs();
    let stamp = unix_timestamp().unwrap();
    let after = SystemTime::now().duration_since(UNIX_EPOCH).unwrap().as_secs();
    assert!(before <= stamp && stamp <= after);
}
