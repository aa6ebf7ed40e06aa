use sensor_dashboard::records::{SensorRecord, SensorRecords, Timestamp};

fn record(power: u64) -> SensorRecord {
    SensorRecord {
        ambient_temperature: 215,
        relative_humidity: 480,
        ambient_luminous_level: 30,
        instant_power_usage: power,
    }
}

fn at(secs: i64) -> Timestamp {
    Timestamp { secs, nanos: 0 }
}

#[test]
fn new_buffer_is_empty() {
    let buffer = SensorRecords::<3>::new();
    assert!(buffer.is_empty());
    assert_eq!(buffer.len(), 0);
    assert_eq!(buffer.latest(), None);
    assert_eq!(buffer.last_timestamp(), None);
    assert!(buffer.iter().is_empty());
}

#[test]
fn one_append_makes_it_non_empty() {
    let mut buffer = SensorRecords::<3>::new();
    buffer.add_with_timestamp(record(5), at(100));
    assert!(!buffer.is_empty());
    assert_eq!(buffer.latest(), Some((record(5), at(100))));
    assert_eq!(buffer.last_timestamp(), Some(at(100)));
}

#[test]
fn capacity_three_keeps_last_three_of_four() {
    let mut buffer = SensorRecords::<3>::new();
    buffer.add_with_timestamp(record(10), at(1));
    buffer.add_with_timestamp(record(20), at(2));
    buffer.add_with_timestamp(record(30), at(3));
    buffer.add_with_timestamp(record(40), at(4));
    let powers: Vec<u64> = buffer.iter().iter().map(|r| r.instant_power_usage).collect();
    assert_eq!(powers, vec![20, 30, 40]);
    assert_eq!(buffer.latest(), Some((record(40), at(4))));
    assert_eq!(buffer.len(), 3);
}

#[test]
fn capacity_one_keeps_only_the_newest() {
    let mut buffer = SensorRecords::<1>::new();
    buffer.add_with_timestamp(record(1), at(1));
    buffer.add_with_timestamp(record(2), at(2));
    assert_eq!(buffer.iter(), &[record(2)][..]);
    assert_eq!(buffer.latest(), Some((record(2), at(2))));
}

#[test]
fn appends_below_capacity_keep_everything_in_order() {
    let mut buffer = SensorRecords::<5>::new();
    for k in 0..4u64 {
        buffer.add_with_timestamp(record(k), at(k as i64));
    }
    let powers: Vec<u64> = buffer.iter().iter().map(|r| r.instant_power_usage).collect();
    assert_eq!(powers, vec![0, 1, 2, 3]);
}

#[test]
fn many_appends_keep_the_most_recent() {
    let mut buffer = SensorRecords::<4>::new();
    for k in 0..25u64 {
        buffer.add_with_timestamp(record(k), at(k as i64));
        let kept = std::cmp::min(k as usize + 1, 4);
        assert_eq!(buffer.len(), kept);
        assert_eq!(buffer.latest(), Some((record(k), at(k as i64))));
    }
    let powers: Vec<u64> = buffer.iter().iter().map(|r| r.instant_power_usage).collect();
    assert_eq!(powers, vec![21, 22, 23, 24]);
}

#[test]
fn timestamp_order() {
    let early = Timestamp { secs: 10, nanos: 5 };
    let late = Timestamp { secs: 10, nanos: 6 };
    assert!(late.is_after(&early));
    assert!(!early.is_after(&late));
    assert!(!early.is_after(&early));
    assert_eq!(early.latest(late), late);
    assert_eq!(late.latest(early), late);
    assert!(Timestamp { secs: 11, nanos: 0 }.is_after(&late));
}

#[test]
fn default_record_is_all_zero() {
    let r = SensorRecord::default();
    assert_eq!(r.ambient_temperature, 0);
    assert_eq!(r.relative_humidity, 0);
    assert_eq!(r.ambient_luminous_level, 0);
    assert_eq!(r.instant_power_usage, 0);
}
