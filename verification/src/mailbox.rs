//! Single-slot mailboxes and the sample stage that moves a fetched record
//! from one to the next.
//!
//! A mailbox holds at most one value. Sending overwrites; taking removes, so
//! each value reaches its consumer at most once.

use vstd::prelude::*;
use crate::clock::timestamp_now;
use crate::fetch::FetchError;
use crate::rate_limit::RateLimitInfo;
use crate::records::{History, SensorRecord, SensorRecords, Timestamp};

verus! {

/// A hand-off slot for one value.
pub struct Mailbox<T> {
    slot: Option<T>,
}

impl<T> View for Mailbox<T> {
    type V = Option<T>;

    closed spec fn view(&self) -> Option<T> {
        self.slot
    }
}

impl<T> Mailbox<T> {
    /// An empty mailbox.
    pub fn new() -> (r: Self)
        ensures
            r@ is None,
    {
        Mailbox { slot: None }
    }

    /// Places `value` in the slot, replacing whatever was pending.
    pub fn put(&mut self, value: T)
        ensures
            final(self)@ == Some(value),
    {
        self.slot = Some(value);
    }

    /// Removes the pending value, if any, and leaves the slot empty.
    pub fn take(&mut self) -> (r: Option<T>)
        ensures
            r == old(self)@,
            final(self)@ is None,
    {
        self.slot.take()
    }

    /// Whether nothing is pending.
    pub fn is_empty(&self) -> (r: bool)
        ensures
            r == (self@ is None),
    {
        self.slot.is_none()
    }
}

/// A record together with the time it stands for.
pub type Stamped = (SensorRecord, Timestamp);

/// The fetch-side and render-side slots that the sample stage connects.
pub struct Slots {
    pub last: Option<Stamped>,
    pub sampled: Option<Stamped>,
}

impl Slots {
    /// Both slots empty.
    pub open spec fn empty() -> Slots {
        Slots { last: None, sampled: None }
    }

    /// A successful fetch leaves its record in the first slot.
    pub open spec fn after_fetch(self, record: SensorRecord, fetched_at: Timestamp) -> Slots {
        Slots { last: Some((record, fetched_at)), sampled: self.sampled }
    }

    /// One firing of the sample stage at time `now`: the fetched record, if
    /// one is pending, moves to the second slot with `now` as its time; the
    /// first slot is left empty.
    pub open spec fn after_sample(self, now: Timestamp) -> Slots {
        Slots {
            last: None,
            sampled: match self.last {
                Some(fetched) => Some((fetched.0, now)),
                None => self.sampled,
            },
        }
    }

    /// The render stage takes what is pending in the second slot.
    pub open spec fn after_take(self) -> (Option<Stamped>, Slots) {
        (self.sampled, Slots { last: self.last, sampled: None })
    }
}

/// How often the sample stage fires, in seconds.
pub const SAMPLE_PERIOD_SECS: u64 = 30;

/// One firing of the sample stage at time `now`.
pub fn sample_stage(last: &mut Mailbox<Stamped>, sampled: &mut Mailbox<Stamped>, now: Timestamp)
    ensures
        (Slots { last: final(last)@, sampled: final(sampled)@ }) == (Slots {
            last: old(last)@,
            sampled: old(sampled)@,
        }).after_sample(now),
{
    match last.take() {
        Some((record, _)) => {
            sampled.put((record, now));
        },
        None => {},
    }
}

/// One firing of the sample stage at the current time. Whatever the clock
/// says, the first slot ends empty; a pending record moves to the second slot
/// unchanged, and without one the second slot keeps what it held.
pub fn sample_task(last: &mut Mailbox<Stamped>, sampled: &mut Mailbox<Stamped>)
    ensures
        final(last)@ is None,
        old(last)@ is None ==> final(sampled)@ == old(sampled)@,
        old(last)@ is Some ==> final(sampled)@ is Some && final(sampled)@->Some_0.0 == old(
            last,
        )@->Some_0.0,
{
    let now = timestamp_now();
    sample_stage(last, sampled, now);
}

/// The history after the render stage has taken in `sample`: one append when
/// a sample was pending, no change otherwise.
pub open spec fn after_intake(history: History, capacity: nat, sample: Option<Stamped>) -> History {
    match sample {
        Some(s) => history.append(capacity, s.0, s.1),
        None => history,
    }
}

/// The render stage's intake: what is pending in the second slot is appended
/// to the rolling history, and the slot is left empty. Returns whether a
/// sample was pending.
pub fn take_sample<const N: usize>(records: &mut SensorRecords<N>, sampled: &mut Mailbox<Stamped>) -> (taken: bool)
    requires
        old(records).wf(),
    ensures
        final(records).wf(),
        final(records)@ == after_intake(old(records)@, N as nat, old(sampled)@),
        final(sampled)@ is None,
        taken == (old(sampled)@ is Some),
{
    match sampled.take() {
        Some((record, timestamp)) => {
            records.add_with_timestamp(record, timestamp);
            true
        },
        None => false,
    }
}

/// Takes the quota that the fetch stage left, if any, as the quota now
/// known; the slot is left empty.
pub fn take_rate_limit(known: &mut RateLimitInfo, slot: &mut Mailbox<RateLimitInfo>)
    ensures
        final(slot)@ is None,
        *final(known) == match old(slot)@ {
            Some(reported) => reported,
            None => *old(known),
        },
{
    match slot.take() {
        Some(reported) => {
            *known = reported;
        },
        None => {},
    }
}

/// Leaves the outcome of a fetch cycle for the other stages: a success fills
/// the record slot and the quota slot; a failure touches neither.
pub fn store_fetch_result(
    last: &mut Mailbox<Stamped>,
    rate_limit: &mut Mailbox<RateLimitInfo>,
    outcome: Result<(SensorRecord, Timestamp, RateLimitInfo), FetchError>,
)
    ensures
        final(last)@ == match outcome {
            Ok(fetched) => Some((fetched.0, fetched.1)),
            Err(_) => old(last)@,
        },
        final(rate_limit)@ == match outcome {
            Ok(fetched) => Some(fetched.2),
            Err(_) => old(rate_limit)@,
        },
{
    match outcome {
        Ok((record, timestamp, reported)) => {
            last.put((record, timestamp));
            rate_limit.put(reported);
        },
        Err(_) => {},
    }
}

/// After one successful fetch, two firings of the sample stage hand exactly
/// one record to the rolling history, whatever the slots held before and
/// whether or not the render stage runs between the firings: the record that
/// was fetched, stamped with the time of the first firing. The second firing
/// finds the first slot empty.
pub proof fn lemma_one_fetch_one_handoff(
    start: Slots,
    history: History,
    capacity: nat,
    record: SensorRecord,
    fetched_at: Timestamp,
    first: Timestamp,
    second: Timestamp,
    render_between: bool,
)
    ensures
        ({
            let fired = start.after_fetch(record, fetched_at).after_sample(first);
            let between = if render_between {
                fired.after_take()
            } else {
                (None, fired)
            };
            let end = between.1.after_sample(second).after_take();
            let again = end.1.after_take();
            &&& fired.last is None
            &&& (between.0 is Some) != (end.0 is Some)
            &&& (between.0 == Some((record, first)) || end.0 == Some((record, first)))
            &&& again.0 is None
            &&& after_intake(
                after_intake(after_intake(history, capacity, between.0), capacity, end.0),
                capacity,
                again.0,
            ) == history.append(capacity, record, first)
        }),
{
}

} // verus!
