use sensor_dashboard::fetch::{
    assemble, fetch_remo_sensor_data, find_number, later, power_usage, ApplianceReply, ApplianceScan,
    ApplianceSubNode, DeviceReply, DeviceScan, DeviceSubNode, EchonetLiteProperty, FetchError,
    NewestEvents, SensorValue,
};
use sensor_dashboard::rate_limit::RateLimitInfo;
use sensor_dashboard::records::{SensorRecord, Timestamp};

fn at(secs: i64) -> Timestamp {
    Timestamp { secs, nanos: 0 }
}

fn property(epc: u32, val: &str) -> EchonetLiteProperty {
    EchonetLiteProperty { epc, val: val.as_bytes().to_vec() }
}

fn event(val: i32, secs: i64) -> Option<SensorValue> {
    Some(SensorValue { val, created_at: at(secs) })
}

fn no_events() -> NewestEvents {
    NewestEvents { temperature: None, humidity: None, illumination: None, motion: None }
}

#[test]
fn power_is_instant_times_coefficient() {
    let properties = [property(224, "1000"), property(231, "412"), property(211, "3")];
    assert_eq!(find_number(&properties, 231), Some(412));
    assert_eq!(find_number(&properties, 211), Some(3));
    assert_eq!(power_usage(&properties), Some(1236));
}

#[test]
fn power_needs_both_properties() {
    assert_eq!(power_usage(&[property(231, "412")]), None);
    assert_eq!(power_usage(&[property(211, "1")]), None);
    assert_eq!(power_usage(&[]), None);
}

#[test]
fn unparsable_property_leaves_power_out() {
    assert_eq!(power_usage(&[property(231, "4a"), property(211, "1")]), None);
    assert_eq!(power_usage(&[property(231, "-4"), property(211, "1")]), None);
    assert_eq!(power_usage(&[property(231, "4294967296"), property(211, "1")]), None);
}

#[test]
fn first_property_with_the_code_decides() {
    assert_eq!(find_number(&[property(231, "x"), property(231, "5")], 231), None);
    assert_eq!(find_number(&[property(231, "6"), property(231, "5")], 231), Some(6));
}

#[test]
fn largest_power_is_exact() {
    let properties = [property(231, "4294967295"), property(211, "4294967295")];
    assert_eq!(power_usage(&properties), Some(18446744065119617025));
}

#[test]
fn later_of_two_times() {
    assert_eq!(later(None, None), None);
    assert_eq!(later(Some(at(1)), None), Some(at(1)));
    assert_eq!(later(None, Some(at(2))), Some(at(2)));
    assert_eq!(later(Some(at(3)), Some(at(2))), Some(at(3)));
    assert_eq!(later(Some(at(2)), Some(at(3))), Some(at(3)));
}

#[test]
fn record_takes_the_latest_event_time() {
    let events = NewestEvents {
        temperature: event(215, 300),
        humidity: event(480, 100),
        illumination: event(30, 200),
        motion: event(1, 900),
    };
    assert_eq!(events.latest_time(), Some(at(300)));
    let (record, timestamp) = assemble(Some(events), &[property(231, "50"), property(211, "2")], at(1000));
    assert_eq!(
        record,
        SensorRecord {
            ambient_temperature: 215,
            relative_humidity: 480,
            ambient_luminous_level: 30,
            instant_power_usage: 100,
        }
    );
    assert_eq!(timestamp, at(300));
}

#[test]
fn record_without_events_takes_the_fetch_time() {
    let (record, timestamp) = assemble(None, &[], at(1000));
    assert_eq!(record, SensorRecord::default());
    assert_eq!(timestamp, at(1000));
    let (record, timestamp) = assemble(Some(no_events()), &[], at(1000));
    assert_eq!(record, SensorRecord::default());
    assert_eq!(timestamp, at(1000));
}

#[test]
fn missing_measurements_stay_zero() {
    let events = NewestEvents { humidity: event(555, 70), ..no_events() };
    let (record, timestamp) = assemble(Some(events), &[], at(1000));
    assert_eq!(record.ambient_temperature, 0);
    assert_eq!(record.relative_humidity, 555);
    assert_eq!(record.ambient_luminous_level, 0);
    assert_eq!(record.instant_power_usage, 0);
    assert_eq!(timestamp, at(70));
}

#[test]
fn device_scan_keeps_the_events_of_the_target() {
    let mut scan = DeviceScan::new(7);
    let wanted = NewestEvents { temperature: event(1, 1), ..no_events() };
    let other = NewestEvents { temperature: event(2, 2), ..no_events() };
    scan.on_node(8, Some(DeviceSubNode::NewestEvents(other)));
    assert!(!scan.found);
    assert_eq!(scan.newest_events, None);
    scan.on_node(7, None);
    assert!(scan.found);
    assert_eq!(scan.newest_events, None);
    scan.on_node(7, Some(DeviceSubNode::User));
    scan.on_node(7, Some(DeviceSubNode::NewestEvents(wanted)));
    scan.on_node(7, Some(DeviceSubNode::User));
    scan.on_node(9, Some(DeviceSubNode::NewestEvents(other)));
    assert_eq!(scan.newest_events, Some(wanted));
}

#[test]
fn appliance_scan_keeps_the_properties_of_the_target() {
    let mut scan = ApplianceScan::new(7);
    assert!(!scan.found());
    scan.on_node(8, Some(ApplianceSubNode::EchonetLiteProperty(property(231, "1"))));
    assert!(!scan.found());
    assert!(scan.properties().is_empty());
    scan.on_node(7, Some(ApplianceSubNode::Device));
    scan.on_node(7, Some(ApplianceSubNode::Model));
    scan.on_node(7, None);
    assert!(scan.found());
    scan.on_node(7, Some(ApplianceSubNode::EchonetLiteProperty(property(231, "40"))));
    scan.on_node(7, Some(ApplianceSubNode::EchonetLiteProperty(property(211, "2"))));
    assert_eq!(scan.properties(), &[property(231, "40"), property(211, "2")][..]);
    assert_eq!(power_usage(scan.properties()), Some(80));
}

#[test]
fn appliance_scan_keeps_at_most_ten_properties() {
    let mut scan = ApplianceScan::new(7);
    for k in 0..14u32 {
        scan.on_node(7, Some(ApplianceSubNode::EchonetLiteProperty(property(k, "1"))));
    }
    let codes: Vec<u32> = scan.properties().iter().map(|p| p.epc).collect();
    assert_eq!(codes, (0..10).collect::<Vec<u32>>());
}

fn appliance_reply(limit: usize) -> ApplianceReply {
    let mut scan = ApplianceScan::new(1);
    scan.on_node(1, Some(ApplianceSubNode::EchonetLiteProperty(property(231, "20"))));
    scan.on_node(1, Some(ApplianceSubNode::EchonetLiteProperty(property(211, "10"))));
    ApplianceReply { scan, rate_limit: RateLimitInfo { limit: Some(limit), remaining: None, reset: None } }
}

fn device_reply() -> DeviceReply {
    DeviceReply {
        newest_events: Some(NewestEvents { temperature: event(200, 50), ..no_events() }),
        rate_limit: RateLimitInfo { limit: Some(1), remaining: Some(1), reset: Some(1) },
    }
}

#[test]
fn fetch_combines_both_replies() {
    let outcome = fetch_remo_sensor_data(Ok(device_reply()), Ok(appliance_reply(30)), at(1000));
    let (record, timestamp, quota) = outcome.unwrap();
    assert_eq!(record.ambient_temperature, 200);
    assert_eq!(record.instant_power_usage, 200);
    assert_eq!(timestamp, at(50));
    assert_eq!(quota, RateLimitInfo { limit: Some(30), remaining: None, reset: None });
}

#[test]
fn either_failure_fails_the_fetch() {
    assert_eq!(
        fetch_remo_sensor_data(Err(FetchError::Transport), Ok(appliance_reply(30)), at(1)),
        Err(FetchError::Transport)
    );
    assert_eq!(
        fetch_remo_sensor_data(Ok(device_reply()), Err(FetchError::Parse), at(1)),
        Err(FetchError::Parse)
    );
    assert_eq!(
        fetch_remo_sensor_data(Err(FetchError::Parse), Err(FetchError::Transport), at(1)),
        Err(FetchError::Parse)
    );
}
