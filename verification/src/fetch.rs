//! The fetch stage: what one round trip to the cloud service yields.
//!
//! Two replies are read in turn. The device reply carries the newest sensor
//! events of the device of interest; the appliance reply carries the numeric
//! properties of the appliance of interest. From both comes one sample record,
//! its time, and the quota that the second reply reported.

use vstd::prelude::*;
use crate::rate_limit::{parse_decimal, spec_parse_decimal, RateLimitInfo};
use crate::records::{SensorRecord, Timestamp};

verus! {

/// The property code of the measured instantaneous value.
pub const EPC_INSTANT_VALUE: u32 = 231;

/// The property code of the coefficient that scales the instantaneous value.
pub const EPC_COEFFICIENT: u32 = 211;

/// How many properties of one appliance are retained.
pub const MAX_PROPERTIES: usize = 10;

/// Why a fetch cycle was abandoned.
#[derive(Clone, Copy, Debug, PartialEq, Eq, Structural)]
pub enum FetchError {
    /// The connection failed or timed out.
    Transport,
    /// The reply was malformed or lacked an expected node.
    Parse,
}

/// One sensor event: the value in tenths of its unit and when it was taken.
#[derive(Clone, Copy, Debug, PartialEq, Eq, Structural)]
pub struct SensorValue {
    pub val: i32,
    pub created_at: Timestamp,
}

/// The newest event of each kind that a device has recorded.
#[derive(Clone, Copy, Debug, PartialEq, Eq, Structural)]
pub struct NewestEvents {
    pub temperature: Option<SensorValue>,
    pub humidity: Option<SensorValue>,
    pub illumination: Option<SensorValue>,
    pub motion: Option<SensorValue>,
}

/// What accompanies a device in one step of reading the device reply.
#[derive(Clone, Copy, Debug, PartialEq, Eq, Structural)]
pub enum DeviceSubNode {
    User,
    NewestEvents(NewestEvents),
}

/// One numeric property of an appliance: its code and its value as written.
#[derive(Debug, PartialEq, Eq)]
pub struct EchonetLiteProperty {
    pub epc: u32,
    pub val: Vec<u8>,
}

/// What accompanies an appliance in one step of reading the appliance reply.
#[derive(Debug, PartialEq, Eq)]
pub enum ApplianceSubNode {
    Device,
    Model,
    EchonetLiteProperty(EchonetLiteProperty),
}

/// `heapless::Vec`, a vector of fixed capacity, made known as a type. Nothing
/// of its inside is visible here; what it holds is told by [`property_items`].
#[verifier::external_type_specification]
#[verifier::external_body]
#[verifier::reject_recursive_types(T)]
pub struct ExBoundedVec<T, const N: usize>(heapless::Vec<T, N>);

/// The properties that a `heapless::Vec` holds, in the order they were
/// pushed.
pub uninterp spec fn property_items(v: heapless::Vec<EchonetLiteProperty, MAX_PROPERTIES>) -> Seq<
    EchonetLiteProperty,
>;

/// `heapless::Vec::new`: a vector that holds nothing.
#[verifier::external_body]
fn properties_new() -> (v: heapless::Vec<EchonetLiteProperty, MAX_PROPERTIES>)
    ensures
        property_items(v) == Seq::<EchonetLiteProperty>::empty(),
{
    heapless::Vec::new()
}

/// `heapless::Vec::push`: below capacity the item is appended; at capacity
/// the vector is unchanged and the item is handed back.
#[verifier::external_body]
fn properties_push(
    v: &mut heapless::Vec<EchonetLiteProperty, MAX_PROPERTIES>,
    item: EchonetLiteProperty,
) -> (r: Result<(), EchonetLiteProperty>)
    ensures
        r is Ok <==> property_items(*old(v)).len() < MAX_PROPERTIES,
        r is Ok ==> property_items(*final(v)) == property_items(*old(v)).push(item),
        r is Err ==> r->Err_0 == item && property_items(*final(v)) == property_items(*old(v)),
{
    v.push(item)
}

/// `heapless::Vec::as_slice`: the items held, in order.
#[verifier::external_body]
fn properties_slice(v: &heapless::Vec<EchonetLiteProperty, MAX_PROPERTIES>) -> (s: &[EchonetLiteProperty])
    ensures
        s@ == property_items(*v),
{
    v.as_slice()
}

/// What reading the device reply has found so far.
pub struct DeviceScan {
    pub target: u128,
    pub found: bool,
    pub newest_events: Option<NewestEvents>,
}

impl DeviceScan {
    /// The state before anything was read, looking for device `target`.
    pub fn new(target: u128) -> (r: Self)
        ensures
            r.target == target,
            !r.found,
            r.newest_events is None,
    {
        DeviceScan { target, found: false, newest_events: None }
    }

    /// The state after one more step of the reader, which names a device and
    /// may carry one of its sub-nodes.
    pub open spec fn after_node(self, device_id: u128, sub_node: Option<DeviceSubNode>) -> DeviceScan {
        if device_id == self.target {
            DeviceScan {
                target: self.target,
                found: true,
                newest_events: match sub_node {
                    Some(DeviceSubNode::NewestEvents(events)) => Some(events),
                    _ => self.newest_events,
                },
            }
        } else {
            self
        }
    }

    /// Takes in one step of the reader. Only the device of interest counts;
    /// of its sub-nodes only the newest events are kept.
    pub fn on_node(&mut self, device_id: u128, sub_node: Option<DeviceSubNode>)
        ensures
            *final(self) == old(self).after_node(device_id, sub_node),
    {
        if device_id == self.target {
            self.found = true;
            match sub_node {
                Some(DeviceSubNode::NewestEvents(events)) => {
                    self.newest_events = Some(events);
                },
                _ => {},
            }
        }
    }
}

/// What reading the appliance reply has found so far.
pub struct ApplianceScan {
    target: u128,
    found: bool,
    properties: heapless::Vec<EchonetLiteProperty, MAX_PROPERTIES>,
}

/// The state of an appliance scan as plain values.
pub struct ApplianceScanView {
    pub target: u128,
    pub found: bool,
    pub properties: Seq<EchonetLiteProperty>,
}

impl ApplianceScanView {
    /// The state after one more step of the reader. A property of the
    /// appliance of interest is appended while fewer than the maximum are
    /// held; later ones are dropped.
    pub open spec fn after_node(self, appliance_id: u128, sub_node: Option<ApplianceSubNode>) -> ApplianceScanView {
        if appliance_id == self.target {
            ApplianceScanView {
                target: self.target,
                found: true,
                properties: match sub_node {
                    Some(ApplianceSubNode::EchonetLiteProperty(property)) => if self.properties.len()
                        < MAX_PROPERTIES {
                        self.properties.push(property)
                    } else {
                        self.properties
                    },
                    _ => self.properties,
                },
            }
        } else {
            self
        }
    }
}

impl View for ApplianceScan {
    type V = ApplianceScanView;

    closed spec fn view(&self) -> ApplianceScanView {
        ApplianceScanView {
            target: self.target,
            found: self.found,
            properties: property_items(self.properties),
        }
    }
}

impl ApplianceScan {
    /// The state before anything was read, looking for appliance `target`.
    pub fn new(target: u128) -> (r: Self)
        ensures
            r@ == (ApplianceScanView { target, found: false, properties: Seq::empty() }),
    {
        ApplianceScan { target, found: false, properties: properties_new() }
    }

    /// Takes in one step of the reader.
    pub fn on_node(&mut self, appliance_id: u128, sub_node: Option<ApplianceSubNode>)
        ensures
            final(self)@ == old(self)@.after_node(appliance_id, sub_node),
    {
        if appliance_id == self.target {
            self.found = true;
            match sub_node {
                Some(ApplianceSubNode::EchonetLiteProperty(property)) => {
                    let _ = properties_push(&mut self.properties, property);
                },
                _ => {},
            }
        }
    }

    /// Whether the appliance of interest was seen.
    pub fn found(&self) -> (r: bool)
        ensures
            r == self@.found,
    {
        self.found
    }

    /// The properties retained so far, in the order they were read.
    pub fn properties(&self) -> (r: &[EchonetLiteProperty])
        ensures
            r@ == self@.properties,
    {
        properties_slice(&self.properties)
    }
}

/// The first property with code `epc`, if any.
pub open spec fn first_with_code(properties: Seq<EchonetLiteProperty>, epc: u32) -> Option<
    EchonetLiteProperty,
>
    decreases properties.len(),
{
    if properties.len() == 0 {
        None
    } else if properties[0].epc == epc {
        Some(properties[0])
    } else {
        first_with_code(properties.drop_first(), epc)
    }
}

/// The number that the first property with code `epc` writes, if there is
/// such a property and its value is an unsigned 32-bit decimal number.
pub open spec fn property_number(properties: Seq<EchonetLiteProperty>, epc: u32) -> Option<u32> {
    match first_with_code(properties, epc) {
        Some(property) => match spec_parse_decimal(property.val@, u32::MAX as nat) {
            Some(v) => Some(v as u32),
            None => None,
        },
        None => None,
    }
}

/// The instantaneous power usage in watts: the instantaneous value times its
/// coefficient, when both properties are present and write numbers.
pub open spec fn spec_power_usage(properties: Seq<EchonetLiteProperty>) -> Option<u64> {
    match (
        property_number(properties, EPC_INSTANT_VALUE),
        property_number(properties, EPC_COEFFICIENT),
    ) {
        (Some(instant), Some(coefficient)) => Some((instant * coefficient) as u64),
        _ => None,
    }
}

/// Reads the number of the first property with code `epc`.
pub fn find_number(properties: &[EchonetLiteProperty], epc: u32) -> (r: Option<u32>)
    ensures
        r == property_number(properties@, epc),
{
    let n: usize = properties.len();
    let mut i: usize = 0;
    assert(properties@.subrange(0, n as int) =~= properties@);
    while i < n
        invariant
            0 <= i <= n,
            n == properties@.len(),
            first_with_code(properties@, epc) == first_with_code(
                properties@.subrange(i as int, n as int),
                epc,
            ),
        decreases n - i,
    {
        let ghost rest = properties@.subrange(i as int, n as int);
        assert(rest[0] == properties@[i as int]);
        assert(rest.drop_first() =~= properties@.subrange(i + 1, n as int));
        if properties[i].epc == epc {
            return match parse_decimal(properties[i].val.as_slice(), 0xffff_ffff) {
                Some(v) => Some(v as u32),
                None => None,
            };
        }
        i = i + 1;
    }
    None
}

/// Derives the instantaneous power usage from an appliance's properties.
pub fn power_usage(properties: &[EchonetLiteProperty]) -> (r: Option<u64>)
    ensures
        r == spec_power_usage(properties@),
{
    let instant = find_number(properties, EPC_INSTANT_VALUE);
    let coefficient = find_number(properties, EPC_COEFFICIENT);
    match (instant, coefficient) {
        (Some(instant), Some(coefficient)) => {
            assert(instant * coefficient <= 0xffff_ffff * 0xffff_ffff) by (nonlinear_arith)
                requires
                    0 <= instant <= 0xffff_ffff,
                    0 <= coefficient <= 0xffff_ffff,
            ;
            Some((instant as u64) * (coefficient as u64))
        },
        _ => None,
    }
}

/// The later of two optional times; an absent one never wins.
pub open spec fn spec_later(a: Option<Timestamp>, b: Option<Timestamp>) -> Option<Timestamp> {
    match (a, b) {
        (Some(x), Some(y)) => Some(x.spec_latest(y)),
        (Some(x), None) => Some(x),
        (None, y) => y,
    }
}

/// The later of two optional times.
pub fn later(a: Option<Timestamp>, b: Option<Timestamp>) -> (r: Option<Timestamp>)
    ensures
        r == spec_later(a, b),
{
    match (a, b) {
        (Some(x), Some(y)) => Some(x.latest(y)),
        (Some(x), None) => Some(x),
        (None, y) => y,
    }
}

/// When an optional event was taken.
pub open spec fn event_time(event: Option<SensorValue>) -> Option<Timestamp> {
    match event {
        Some(e) => Some(e.created_at),
        None => None,
    }
}

/// What an optional event measured; zero when absent.
pub open spec fn event_value(event: Option<SensorValue>) -> i32 {
    match event {
        Some(e) => e.val,
        None => 0,
    }
}

impl NewestEvents {
    /// The latest time among the temperature, humidity and illumination
    /// events that are present.
    pub open spec fn spec_latest_time(self) -> Option<Timestamp> {
        spec_later(
            spec_later(event_time(self.temperature), event_time(self.humidity)),
            event_time(self.illumination),
        )
    }

    /// The latest time among the temperature, humidity and illumination
    /// events that are present.
    pub fn latest_time(&self) -> (r: Option<Timestamp>)
        ensures
            r == self.spec_latest_time(),
    {
        let temperature = match self.temperature {
            Some(e) => Some(e.created_at),
            None => None,
        };
        let humidity = match self.humidity {
            Some(e) => Some(e.created_at),
            None => None,
        };
        let illumination = match self.illumination {
            Some(e) => Some(e.created_at),
            None => None,
        };
        later(later(temperature, humidity), illumination)
    }
}

/// The record and time that one fetch cycle yields from the newest events of
/// the device, the properties of the appliance and the time of the fetch.
/// A measurement without a source stays at zero; the time is the latest event
/// time, or the time of the fetch when no event is present.
pub open spec fn spec_assemble(
    events: Option<NewestEvents>,
    properties: Seq<EchonetLiteProperty>,
    fetched_at: Timestamp,
) -> (SensorRecord, Timestamp) {
    let record = SensorRecord {
        ambient_temperature: match events {
            Some(e) => event_value(e.temperature),
            None => 0,
        },
        relative_humidity: match events {
            Some(e) => event_value(e.humidity),
            None => 0,
        },
        ambient_luminous_level: match events {
            Some(e) => event_value(e.illumination),
            None => 0,
        },
        instant_power_usage: match spec_power_usage(properties) {
            Some(power) => power,
            None => 0,
        },
    };
    let timestamp = match events {
        Some(e) => match e.spec_latest_time() {
            Some(t) => t,
            None => fetched_at,
        },
        None => fetched_at,
    };
    (record, timestamp)
}

/// Assembles the record and its time from what the two replies carried.
pub fn assemble(events: Option<NewestEvents>, properties: &[EchonetLiteProperty], fetched_at: Timestamp) -> (r: (
    SensorRecord,
    Timestamp,
))
    ensures
        r == spec_assemble(events, properties@, fetched_at),
{
    let mut record = SensorRecord::default();
    let mut timestamp = fetched_at;
    if let Some(e) = events {
        if let Some(temperature) = e.temperature {
            record.ambient_temperature = temperature.val;
        }
        if let Some(humidity) = e.humidity {
            record.relative_humidity = humidity.val;
        }
        if let Some(luminous) = e.illumination {
            record.ambient_luminous_level = luminous.val;
        }
        if let Some(t) = e.latest_time() {
            timestamp = t;
        }
    }
    if let Some(power) = power_usage(properties) {
        record.instant_power_usage = power;
    }
    (record, timestamp)
}

/// What the device reply yielded once it was read to its end.
#[derive(Clone, Copy, Debug, PartialEq, Eq, Structural)]
pub struct DeviceReply {
    pub newest_events: Option<NewestEvents>,
    pub rate_limit: RateLimitInfo,
}

/// What the appliance reply yielded once it was read to its end.
pub struct ApplianceReply {
    pub scan: ApplianceScan,
    pub rate_limit: RateLimitInfo,
}

/// The outcome of a fetch cycle whose two replies are `device` and
/// `appliance`: the first failure, or the assembled record, its time and the
/// quota of the appliance reply.
pub open spec fn spec_fetch(
    device: Result<DeviceReply, FetchError>,
    appliance: Result<ApplianceReply, FetchError>,
    fetched_at: Timestamp,
) -> Result<(SensorRecord, Timestamp, RateLimitInfo), FetchError> {
    match device {
        Err(e) => Err(e),
        Ok(d) => match appliance {
            Err(e) => Err(e),
            Ok(a) => {
                let assembled = spec_assemble(d.newest_events, a.scan@.properties, fetched_at);
                Ok((assembled.0, assembled.1, a.rate_limit))
            },
        },
    }
}

/// Concludes a fetch cycle from its two replies. Either failure fails the
/// cycle; there is no partial result.
pub fn fetch_remo_sensor_data(
    device: Result<DeviceReply, FetchError>,
    appliance: Result<ApplianceReply, FetchError>,
    fetched_at: Timestamp,
) -> (r: Result<(SensorRecord, Timestamp, RateLimitInfo), FetchError>)
    ensures
        r == spec_fetch(device, appliance, fetched_at),
{
    match device {
        Err(e) => Err(e),
        Ok(d) => match appliance {
            Err(e) => Err(e),
            Ok(a) => {
                let (record, timestamp) = assemble(d.newest_events, a.scan.properties(), fetched_at);
                Ok((record, timestamp, a.rate_limit))
            },
        },
    }
}

} // verus!
