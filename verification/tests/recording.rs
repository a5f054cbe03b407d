use flightlink::recording::{RecordingBuffer, RECORDING_CAPACITY};
use flightlink::telemetry::Telemetry;

fn record(i: u32) -> Telemetry {
    Telemetry { time: i, altitude: i, temperature: i, battery_voltage: i }
}

#[test]
fn capacity_is_nine_hundred() {
    assert_eq!(RECORDING_CAPACITY, 900);
}

#[test]
fn pushes_beyond_capacity_are_dropped() {
    let mut buffer = RecordingBuffer::new();
    let extra = 5;
    for i in 0..(RECORDING_CAPACITY + extra) as u32 {
        let pushed = buffer.try_push(record(i));
        assert_eq!(pushed, (i as usize) < RECORDING_CAPACITY);
    }
    assert_eq!(buffer.len(), RECORDING_CAPACITY);
    for k in 0..extra {
        assert_eq!(buffer.get(RECORDING_CAPACITY + k), None);
    }
    // The stored records are the first ones, in emission order.
    assert_eq!(buffer.get(0), Some(record(0)));
    assert_eq!(buffer.get(RECORDING_CAPACITY - 1), Some(record(RECORDING_CAPACITY as u32 - 1)));
}

#[test]
fn get_is_bounds_checked() {
    let mut buffer = RecordingBuffer::new();
    assert_eq!(buffer.get(0), None);
    buffer.try_push(record(7));
    assert_eq!(buffer.get(0), Some(record(7)));
    assert_eq!(buffer.get(1), None);
    assert_eq!(buffer.get(usize::MAX), None);
}

#[test]
fn clear_empties_the_recording() {
    let mut buffer = RecordingBuffer::new();
    for i in 0..10 {
        buffer.try_push(record(i));
    }
    assert_eq!(buffer.len(), 10);
    buffer.clear();
    assert_eq!(buffer.len(), 0);
    assert_eq!(buffer.get(0), None);
    assert!(buffer.try_push(record(11)));
    assert_eq!(buffer.get(0), Some(record(11)));
}
