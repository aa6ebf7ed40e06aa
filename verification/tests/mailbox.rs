use sensor_dashboard::fetch::FetchError;
use sensor_dashboard::mailbox::{
    sample_stage, sample_task, store_fetch_result, take_rate_limit, take_sample, Mailbox, Stamped,
};
use sensor_dashboard::rate_limit::RateLimitInfo;
use sensor_dashboard::records::{SensorRecord, SensorRecords, Timestamp};

fn record(power: u64) -> SensorRecord {
    SensorRecord {
        ambient_temperature: 1,
        relative_humidity: 2,
        ambient_luminous_level: 3,
        instant_power_usage: power,
    }
}

fn at(secs: i64) -> Timestamp {
    Timestamp { secs, nanos: 0 }
}

#[test]
fn mailbox_take_empties_the_slot() {
    let mut slot: Mailbox<u32> = Mailbox::new();
    assert!(slot.is_empty());
    assert_eq!(slot.take(), None);
    slot.put(5);
    assert!(!slot.is_empty());
    assert_eq!(slot.take(), Some(5));
    assert_eq!(slot.take(), None);
    assert!(slot.is_empty());
}

#[test]
fn mailbox_put_overwrites() {
    let mut slot: Mailbox<u32> = Mailbox::new();
    slot.put(1);
    slot.put(2);
    assert_eq!(slot.take(), Some(2));
    assert_eq!(slot.take(), None);
}

#[test]
fn sample_stage_restamps_the_fetched_record() {
    let mut last: Mailbox<Stamped> = Mailbox::new();
    let mut sampled: Mailbox<Stamped> = Mailbox::new();
    last.put((record(7), at(100)));
    sample_stage(&mut last, &mut sampled, at(130));
    assert!(last.is_empty());
    assert_eq!(sampled.take(), Some((record(7), at(130))));
}

#[test]
fn sample_stage_without_a_fetch_keeps_the_pending_sample() {
    let mut last: Mailbox<Stamped> = Mailbox::new();
    let mut sampled: Mailbox<Stamped> = Mailbox::new();
    sampled.put((record(7), at(130)));
    sample_stage(&mut last, &mut sampled, at(160));
    assert_eq!(sampled.take(), Some((record(7), at(130))));
}

#[test]
fn sample_stage_overwrites_an_unconsumed_sample() {
    let mut last: Mailbox<Stamped> = Mailbox::new();
    let mut sampled: Mailbox<Stamped> = Mailbox::new();
    sampled.put((record(1), at(130)));
    last.put((record(2), at(140)));
    sample_stage(&mut last, &mut sampled, at(160));
    assert_eq!(sampled.take(), Some((record(2), at(160))));
}

#[test]
fn two_firings_after_one_fetch_hand_over_once() {
    for render_between in [false, true] {
        let mut last: Mailbox<Stamped> = Mailbox::new();
        let mut sampled: Mailbox<Stamped> = Mailbox::new();
        let mut buffer = SensorRecords::<3>::new();
        let mut handoffs = 0;
        store_fetch_result(
            &mut last,
            &mut Mailbox::new(),
            Ok((record(9), at(100), RateLimitInfo::new())),
        );
        sample_stage(&mut last, &mut sampled, at(130));
        if render_between && take_sample(&mut buffer, &mut sampled) {
            handoffs += 1;
        }
        sample_stage(&mut last, &mut sampled, at(160));
        if take_sample(&mut buffer, &mut sampled) {
            handoffs += 1;
        }
        if take_sample(&mut buffer, &mut sampled) {
            handoffs += 1;
        }
        assert_eq!(handoffs, 1);
        assert_eq!(buffer.iter(), &[record(9)][..]);
        assert_eq!(buffer.latest(), Some((record(9), at(130))));
    }
}

#[test]
fn sample_task_moves_the_record_whatever_the_clock_says() {
    let mut last: Mailbox<Stamped> = Mailbox::new();
    let mut sampled: Mailbox<Stamped> = Mailbox::new();
    last.put((record(7), at(100)));
    sample_task(&mut last, &mut sampled);
    assert!(last.is_empty());
    let (moved, stamped) = sampled.take().unwrap();
    assert_eq!(moved, record(7));
    assert!(stamped.secs > 1_000_000_000);
    sample_task(&mut last, &mut sampled);
    assert!(sampled.is_empty());
}

#[test]
fn failed_fetch_leaves_the_slots_untouched() {
    let mut last: Mailbox<Stamped> = Mailbox::new();
    let mut quota: Mailbox<RateLimitInfo> = Mailbox::new();
    let reported = RateLimitInfo { limit: Some(30), remaining: Some(29), reset: None };
    store_fetch_result(&mut last, &mut quota, Ok((record(1), at(10), reported)));
    store_fetch_result(&mut last, &mut quota, Err(FetchError::Transport));
    store_fetch_result(&mut last, &mut quota, Err(FetchError::Parse));
    assert_eq!(last.take(), Some((record(1), at(10))));
    assert_eq!(quota.take(), Some(reported));
}

#[test]
fn failed_fetch_on_empty_slots_leaves_them_empty() {
    let mut last: Mailbox<Stamped> = Mailbox::new();
    let mut quota: Mailbox<RateLimitInfo> = Mailbox::new();
    store_fetch_result(&mut last, &mut quota, Err(FetchError::Transport));
    assert!(last.is_empty());
    assert!(quota.is_empty());
}

#[test]
fn quota_with_only_remaining_is_stored_as_reported() {
    let mut last: Mailbox<Stamped> = Mailbox::new();
    let mut quota: Mailbox<RateLimitInfo> = Mailbox::new();
    let reported = RateLimitInfo::from_headers(None, Some("12"), None);
    store_fetch_result(&mut last, &mut quota, Ok((record(1), at(10), reported)));
    let mut known = RateLimitInfo::new();
    take_rate_limit(&mut known, &mut quota);
    assert_eq!(known.remaining, Some(12));
    assert_eq!(known.limit, None);
    assert!(quota.is_empty());
    take_rate_limit(&mut known, &mut quota);
    assert_eq!(known.remaining, Some(12));
}

#[test]
fn take_sample_appends_once() {
    let mut buffer = SensorRecords::<2>::new();
    let mut sampled: Mailbox<Stamped> = Mailbox::new();
    assert!(!take_sample(&mut buffer, &mut sampled));
    assert!(buffer.is_empty());
    sampled.put((record(3), at(5)));
    assert!(take_sample(&mut buffer, &mut sampled));
    assert!(!take_sample(&mut buffer, &mut sampled));
    assert_eq!(buffer.len(), 1);
}
