//! Sample records and the bounded rolling history that retains them.

use vstd::prelude::*;

verus! {

/// An absolute point in time: whole seconds since the Unix epoch plus the
/// nanoseconds into that second.
#[derive(Clone, Copy, Debug, PartialEq, Eq, Structural)]
pub struct Timestamp {
    pub secs: i64,
    pub nanos: u32,
}

impl Timestamp {
    /// Chronological order: by seconds, then by nanoseconds.
    pub open spec fn spec_is_after(self, other: Timestamp) -> bool {
        self.secs > other.secs || (self.secs == other.secs && self.nanos > other.nanos)
    }

    /// Whether `self` lies strictly later in time than `other`.
    pub fn is_after(&self, other: &Timestamp) -> (r: bool)
        ensures
            r == self.spec_is_after(*other),
    {
        self.secs > other.secs || (self.secs == other.secs && self.nanos > other.nanos)
    }

    /// The later of two timestamps; `self` when they are equal.
    pub open spec fn spec_latest(self, other: Timestamp) -> Timestamp {
        if other.spec_is_after(self) {
            other
        } else {
            self
        }
    }

    /// The later of two timestamps; `self` when they are equal.
    pub fn latest(self, other: Timestamp) -> (r: Timestamp)
        ensures
            r == self.spec_latest(other),
    {
        if other.is_after(&self) {
            other
        } else {
            self
        }
    }
}

/// One aggregated reading in fixed point.
///
/// Temperature, humidity and luminous level are held in tenths of their unit;
/// power usage is held in whole watts. A measurement that was not available
/// when the record was assembled stays at zero.
#[derive(Clone, Copy, Debug, PartialEq, Eq, Structural)]
pub struct SensorRecord {
    pub ambient_temperature: i32,
    pub relative_humidity: i32,
    pub ambient_luminous_level: i32,
    pub instant_power_usage: u64,
}

impl SensorRecord {
    /// The record with every measurement at its neutral value.
    pub open spec fn spec_default() -> SensorRecord {
        SensorRecord {
            ambient_temperature: 0,
            relative_humidity: 0,
            ambient_luminous_level: 0,
            instant_power_usage: 0,
        }
    }
}

impl Default for SensorRecord {
    fn default() -> (r: SensorRecord)
        ensures
            r == SensorRecord::spec_default(),
    {
        SensorRecord {
            ambient_temperature: 0,
            relative_humidity: 0,
            ambient_luminous_level: 0,
            instant_power_usage: 0,
        }
    }
}

/// What a rolling history holds: the retained records, oldest first, and the
/// time of the most recent append.
pub struct History {
    pub items: Seq<SensorRecord>,
    pub timestamp: Option<Timestamp>,
}

impl History {
    /// The history before any append.
    pub open spec fn empty() -> History {
        History { items: Seq::empty(), timestamp: None }
    }

    /// The history after one append at capacity `capacity`: when full, the
    /// oldest record leaves first; the shared timestamp is overwritten.
    pub open spec fn append(self, capacity: nat, record: SensorRecord, timestamp: Timestamp) -> History {
        History {
            items: if self.items.len() >= capacity {
                self.items.drop_first().push(record)
            } else {
                self.items.push(record)
            },
            timestamp: Some(timestamp),
        }
    }

    /// The history after appending every element of `inputs` in order.
    pub open spec fn append_all(self, capacity: nat, inputs: Seq<(SensorRecord, Timestamp)>) -> History
        decreases inputs.len(),
    {
        if inputs.len() == 0 {
            self
        } else {
            self.append_all(capacity, inputs.drop_last()).append(
                capacity,
                inputs.last().0,
                inputs.last().1,
            )
        }
    }

    /// The most recently appended record with the shared timestamp.
    pub open spec fn latest(self) -> Option<(SensorRecord, Timestamp)> {
        if self.items.len() > 0 && self.timestamp is Some {
            Some((self.items.last(), self.timestamp->Some_0))
        } else {
            None
        }
    }

    /// A history is consistent at capacity `capacity` when it holds at most
    /// that many records and carries a timestamp exactly when it is non-empty.
    pub open spec fn consistent(self, capacity: nat) -> bool {
        &&& capacity >= 1
        &&& self.items.len() <= capacity
        &&& (self.timestamp is None <==> self.items.len() == 0)
    }
}

/// Fixed-capacity rolling history of at most `N` sample records, with one
/// timestamp for the whole buffer: that of the most recent append.
pub struct SensorRecords<const N: usize> {
    records: Vec<SensorRecord>,
    timestamp: Option<Timestamp>,
}

impl<const N: usize> View for SensorRecords<N> {
    type V = History;

    closed spec fn view(&self) -> History {
        History { items: self.records@, timestamp: self.timestamp }
    }
}

impl<const N: usize> SensorRecords<N> {
    /// The buffer's invariant: its contents are consistent at capacity `N`.
    pub open spec fn wf(&self) -> bool {
        self@.consistent(N as nat)
    }

    /// An empty buffer. The capacity must be at least one.
    pub fn new() -> (r: Self)
        requires
            N >= 1,
        ensures
            r.wf(),
            r@ == History::empty(),
    {
        SensorRecords { records: Vec::new(), timestamp: None }
    }

    /// Appends `record`, evicting the oldest record first when the buffer is
    /// full, and sets the shared timestamp to `timestamp`.
    pub fn add_with_timestamp(&mut self, record: SensorRecord, timestamp: Timestamp)
        requires
            old(self).wf(),
        ensures
            final(self).wf(),
            final(self)@ == old(self)@.append(N as nat, record, timestamp),
    {
        if self.records.len() >= N {
            self.records.remove(0);
        }
        self.records.push(record);
        self.timestamp = Some(timestamp);
        proof {
            assert(old(self)@.items.drop_first() =~= old(self)@.items.remove(0));
            assert(self@.items =~= old(self)@.append(N as nat, record, timestamp).items);
        }
    }

    /// The time of the most recent append, if any.
    pub fn last_timestamp(&self) -> (r: Option<Timestamp>)
        ensures
            r == self@.timestamp,
    {
        self.timestamp
    }

    /// The retained records in insertion order, oldest first.
    pub fn iter(&self) -> (r: &[SensorRecord])
        ensures
            r@ == self@.items,
    {
        self.records.as_slice()
    }

    /// The number of retained records.
    pub fn len(&self) -> (r: usize)
        ensures
            r == self@.items.len(),
    {
        self.records.len()
    }

    /// Whether no record is retained.
    pub fn is_empty(&self) -> (r: bool)
        ensures
            r == (self@.items.len() == 0),
    {
        self.records.len() == 0
    }

    /// The most recently appended record paired with the shared timestamp.
    pub fn latest(&self) -> (r: Option<(SensorRecord, Timestamp)>)
        ensures
            r == self@.latest(),
    {
        match self.timestamp {
            Some(timestamp) => {
                let n: usize = self.records.len();
                if n > 0 {
                    Some((self.records[n - 1], timestamp))
                } else {
                    None
                }
            },
            None => None,
        }
    }
}

/// The `count` most recent elements of `inputs`, in order.
pub open spec fn most_recent<T>(inputs: Seq<T>, count: nat) -> Seq<T> {
    if count >= inputs.len() {
        inputs
    } else {
        inputs.subrange(inputs.len() - count, inputs.len() as int)
    }
}

/// The records of a sequence of appends, without their times.
pub open spec fn records_of(inputs: Seq<(SensorRecord, Timestamp)>) -> Seq<SensorRecord> {
    inputs.map_values(|p: (SensorRecord, Timestamp)| p.0)
}

/// After any sequence of appends to an empty history of capacity at least one,
/// the history holds exactly the most recent `min(k, capacity)` inputs in
/// order, it is consistent, and `latest` is the last input with its timestamp.
pub proof fn lemma_appends_retain_most_recent(capacity: nat, inputs: Seq<(SensorRecord, Timestamp)>)
    requires
        capacity >= 1,
    ensures
        History::empty().append_all(capacity, inputs).consistent(capacity),
        History::empty().append_all(capacity, inputs).items == most_recent(records_of(inputs), capacity),
        History::empty().append_all(capacity, inputs).items.len() == if inputs.len() <= capacity {
            inputs.len()
        } else {
            capacity
        },
        inputs.len() > 0 ==> History::empty().append_all(capacity, inputs).latest() == Some(
            inputs.last(),
        ),
        inputs.len() == 0 ==> History::empty().append_all(capacity, inputs).latest() is None,
    decreases inputs.len(),
{
    let records = records_of(inputs);
    if inputs.len() == 0 {
        assert(most_recent(records, capacity) =~= Seq::<SensorRecord>::empty());
    } else {
        let earlier = inputs.drop_last();
        lemma_appends_retain_most_recent(capacity, earlier);
        let after = History::empty().append_all(capacity, inputs);
        assert(records_of(earlier) =~= records.drop_last());
        assert(records.last() == inputs.last().0);
        assert(after.items =~= most_recent(records, capacity));
    }
}

/// A history built by appends is empty exactly when no append has occurred.
pub proof fn lemma_empty_iff_no_appends(capacity: nat, inputs: Seq<(SensorRecord, Timestamp)>)
    requires
        capacity >= 1,
    ensures
        History::empty().append_all(capacity, inputs).items.len() == 0 <==> inputs.len() == 0,
{
    lemma_appends_retain_most_recent(capacity, inputs);
}

} // verus!
