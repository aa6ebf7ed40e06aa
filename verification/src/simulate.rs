//! A source of made-up readings, for running the display without the cloud
//! service.

use vstd::prelude::*;
use crate::clock::timestamp_now;
use crate::mailbox::{Mailbox, Stamped};
use crate::records::SensorRecord;

verus! {

/// `rand::Rng::gen_range` on the generator of `rand::thread_rng`, for the
/// range from zero up to but not including `bound`: the result lies in that
/// range. The range must not be empty.
#[verifier::external_body]
fn random_below(bound: u32) -> (r: u32)
    requires
        bound > 0,
    ensures
        r < bound,
{
    rand::Rng::gen_range(&mut rand::thread_rng(), 0..bound)
}

/// Whether `record` is a plausible reading: a temperature from 0 up to but
/// not including 40 degrees, humidity and luminous level from 0 to 100, power
/// below 2000 watts.
pub open spec fn plausible(record: SensorRecord) -> bool {
    &&& 0 <= record.ambient_temperature < 400
    &&& 0 <= record.relative_humidity <= 1000
    &&& 0 <= record.ambient_luminous_level <= 1000
    &&& record.instant_power_usage < 2000
}

/// A made-up record; whatever the generator yields, it is plausible. Four
/// numbers are drawn, one for each measurement, and [`record_from_draws`]
/// makes the record of them.
pub fn random_record() -> (r: SensorRecord)
    ensures
        plausible(r),
{
    let temperature = random_below(400);
    let humidity = random_below(1001);
    let luminous_level = random_below(1001);
    let power = random_below(2000);
    record_from_draws(temperature, humidity, luminous_level, power)
}

/// The record whose measurements are the four numbers drawn.
pub open spec fn spec_record_from_draws(temperature: u32, humidity: u32, luminous_level: u32, power: u32) -> SensorRecord {
    SensorRecord {
        ambient_temperature: temperature as i32,
        relative_humidity: humidity as i32,
        ambient_luminous_level: luminous_level as i32,
        instant_power_usage: power as u64,
    }
}

/// Makes a record of four numbers drawn, one for each measurement. Each of
/// the first three must fit a signed measurement. The record is plausible
/// exactly when every number lies in its measurement's range.
pub fn record_from_draws(temperature: u32, humidity: u32, luminous_level: u32, power: u32) -> (r: SensorRecord)
    requires
        temperature <= i32::MAX,
        humidity <= i32::MAX,
        luminous_level <= i32::MAX,
    ensures
        r == spec_record_from_draws(temperature, humidity, luminous_level, power),
        plausible(r) <==> temperature < 400 && humidity <= 1000 && luminous_level <= 1000 && power < 2000,
{
    SensorRecord {
        ambient_temperature: temperature as i32,
        relative_humidity: humidity as i32,
        ambient_luminous_level: luminous_level as i32,
        instant_power_usage: power as u64,
    }
}

/// One pass of the made-up source: a plausible record, stamped with the
/// current time, is left in the record slot.
pub fn update_task_random(last: &mut Mailbox<Stamped>)
    ensures
        final(last)@ is Some,
        plausible(final(last)@->Some_0.0),
{
    let record = random_record();
    let timestamp = timestamp_now();
    last.put((record, timestamp));
}

} // verus!
