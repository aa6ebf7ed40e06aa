//! The render stage: it takes in the newest sample, works out the range of
//! each measurement over the retained history, and draws one frame: a status
//! bar and three chart panels, each with its current, lowest and highest
//! value.

use vstd::prelude::*;
use vstd::slice::slice_to_vec;
use vstd::string::StringSliceAdditionalSpecFns;
use crate::chart::{Chart, Plot};
use crate::mailbox::{after_intake, take_rate_limit, take_sample, Mailbox, Stamped};
use crate::rate_limit::RateLimitInfo;
use crate::records::{History, SensorRecord, SensorRecords};
use crate::surface::{Canvas, ColorRgb332, DrawOp, TextDatum};
use crate::text::{
    format_tenths,
    format_whole,
    placeholder,
    rate_limit_text,
    spec_format_tenths,
    spec_format_whole,
    spec_placeholder,
    spec_rate_limit_text,
    spec_wifi_text,
    wifi_text,
};

verus! {

/// How often a frame is drawn, in seconds.
pub const RENDER_PERIOD_SECS: u64 = 30;

pub const SCREEN_WIDTH: i32 = 960;

pub const SCREEN_HEIGHT: i32 = 540;

/// Where the charts begin; the texts stand to the left of it.
pub const CHART_LEFT: i32 = 300;

/// How far the values are indented.
pub const VALUE_MARGIN_LEFT: i32 = 20;

/// The scale of the labels and the lesser values, in hundredths.
pub const SMALL_SCALE: u32 = 75;

/// The scale of the current value, in hundredths.
pub const FULL_SCALE: u32 = 100;

/// A measurement of a sample record.
#[derive(Clone, Copy, Debug, PartialEq, Eq, Structural)]
pub enum Measurement {
    Temperature,
    Humidity,
    LuminousLevel,
    Power,
}

/// The lowest and the highest value of one measurement.
#[derive(Clone, Copy, Debug, PartialEq, Eq, Structural)]
pub struct Range {
    pub min: i64,
    pub max: i64,
}

/// What `record` reads for `measurement` on the display's scale. Temperature,
/// humidity and luminous level are in tenths, power in watts; a power beyond
/// the scale reads as the scale's end.
pub open spec fn spec_reading(record: SensorRecord, measurement: Measurement) -> i64 {
    match measurement {
        Measurement::Temperature => record.ambient_temperature as i64,
        Measurement::Humidity => record.relative_humidity as i64,
        Measurement::LuminousLevel => record.ambient_luminous_level as i64,
        Measurement::Power => if record.instant_power_usage > i64::MAX {
            i64::MAX
        } else {
            record.instant_power_usage as i64
        },
    }
}

/// What `record` reads for `measurement`.
pub fn reading(record: &SensorRecord, measurement: Measurement) -> (r: i64)
    ensures
        r == spec_reading(*record, measurement),
{
    match measurement {
        Measurement::Temperature => record.ambient_temperature as i64,
        Measurement::Humidity => record.relative_humidity as i64,
        Measurement::LuminousLevel => record.ambient_luminous_level as i64,
        Measurement::Power => if record.instant_power_usage > 0x7fff_ffff_ffff_ffff {
            i64::MAX
        } else {
            record.instant_power_usage as i64
        },
    }
}

/// The series that a chart of `measurement` shows: one present value for
/// each retained record.
pub open spec fn spec_series(records: Seq<SensorRecord>, measurement: Measurement) -> Seq<Option<i64>> {
    Seq::new(records.len(), |i: int| Some(spec_reading(records[i], measurement)))
}

/// Collects the series of `measurement`.
pub fn series(records: &[SensorRecord], measurement: Measurement) -> (r: Vec<Option<i64>>)
    ensures
        r@ == spec_series(records@, measurement),
{
    let mut out: Vec<Option<i64>> = Vec::new();
    let mut i: usize = 0;
    while i < records.len()
        invariant
            0 <= i <= records@.len(),
            out@ == spec_series(records@.subrange(0, i as int), measurement),
        decreases records@.len() - i,
    {
        out.push(Some(reading(&records[i], measurement)));
        i = i + 1;
        assert(out@ =~= spec_series(records@.subrange(0, i as int), measurement));
    }
    assert(records@.subrange(0, records@.len() as int) =~= records@);
    out
}

/// The range shown for `measurement` while no record is retained.
pub open spec fn default_range(measurement: Measurement) -> Range {
    match measurement {
        Measurement::Temperature => Range { min: 0, max: 400 },
        Measurement::Humidity => Range { min: 0, max: 1000 },
        Measurement::LuminousLevel => Range { min: 0, max: 1000 },
        Measurement::Power => Range { min: 0, max: 1000 },
    }
}

/// Whether `range` is the range of `measurement` over `records`: the default
/// range when there is no record; else the lowest and the highest reading,
/// each of which some record has and no record passes.
pub open spec fn is_range_of(range: Range, records: Seq<SensorRecord>, measurement: Measurement) -> bool {
    if records.len() == 0 {
        range == default_range(measurement)
    } else {
        &&& forall|i: int|
            0 <= i < records.len() ==> range.min <= #[trigger] spec_reading(records[i], measurement)
                <= range.max
        &&& exists|i: int|
            0 <= i < records.len() && #[trigger] spec_reading(records[i], measurement) == range.min
        &&& exists|i: int|
            0 <= i < records.len() && #[trigger] spec_reading(records[i], measurement) == range.max
    }
}

/// Works out the range of `measurement` over `records`.
pub fn range_of(records: &[SensorRecord], measurement: Measurement) -> (r: Range)
    ensures
        is_range_of(r, records@, measurement),
{
    let n: usize = records.len();
    if n == 0 {
        return match measurement {
            Measurement::Temperature => Range { min: 0, max: 400 },
            Measurement::Humidity => Range { min: 0, max: 1000 },
            Measurement::LuminousLevel => Range { min: 0, max: 1000 },
            Measurement::Power => Range { min: 0, max: 1000 },
        };
    }
    let first: i64 = reading(&records[0], measurement);
    let mut min: i64 = first;
    let mut max: i64 = first;
    let ghost mut min_at: int = 0;
    let ghost mut max_at: int = 0;
    let mut i: usize = 1;
    while i < n
        invariant
            n == records@.len(),
            1 <= i <= n,
            0 <= min_at < i,
            0 <= max_at < i,
            spec_reading(records@[min_at], measurement) == min,
            spec_reading(records@[max_at], measurement) == max,
            forall|k: int| 0 <= k < i ==> min <= #[trigger] spec_reading(records@[k], measurement) <= max,
        decreases n - i,
    {
        let value: i64 = reading(&records[i], measurement);
        if value < min {
            min = value;
            proof {
                min_at = i as int;
            }
        }
        if value > max {
            max = value;
            proof {
                max_at = i as int;
            }
        }
        i = i + 1;
    }
    Range { min, max }
}

/// A range is determined by the records: two ranges of the same measurement
/// over the same records are equal.
pub proof fn lemma_range_is_unique(a: Range, b: Range, records: Seq<SensorRecord>, measurement: Measurement)
    requires
        is_range_of(a, records, measurement),
        is_range_of(b, records, measurement),
    ensures
        a == b,
{
}

/// The range of `measurement` over `records`.
pub open spec fn spec_range(records: Seq<SensorRecord>, measurement: Measurement) -> Range {
    choose|range: Range| is_range_of(range, records, measurement)
}

/// The colour that the screen is cleared with and that the panel texts are
/// written in.
pub open spec fn light() -> ColorRgb332 {
    ColorRgb332 { raw: 0xff }
}

/// The colour of the status bar and of the chart lines.
pub open spec fn dark() -> ColorRgb332 {
    ColorRgb332 { raw: 0x00 }
}

/// The height of one line of text for a font of height `font_height`.
pub open spec fn spec_line_height(font_height: int) -> int {
    font_height * 9 / 8
}

/// The height of each of the three chart panels.
pub open spec fn spec_chart_height(font_height: int) -> int {
    (SCREEN_HEIGHT - spec_line_height(font_height)) / 3
}

/// Whether a font of height `font_height` leaves room for the panels: one
/// line of text must not be taller than the screen.
pub open spec fn layout_fits(font_height: int) -> bool {
    0 <= font_height && spec_line_height(font_height) <= SCREEN_HEIGHT
}

/// Whether a frame can be laid out for a font of height `font_height`.
pub fn fits_screen(font_height: i32) -> (r: bool)
    ensures
        r == layout_fits(font_height as int),
{
    font_height >= 0 && (font_height as i64) * 9 / 8 <= SCREEN_HEIGHT as i64
}

/// A text at `(x, y)`, anchored at its top-left corner, equally scaled in
/// both directions.
pub open spec fn text_op(text: Seq<u8>, x: int, y: int, fg: ColorRgb332, bg: ColorRgb332, scale: nat) -> DrawOp {
    DrawOp::DrawString { text, x, y, fg, bg, scale_x: scale, scale_y: scale, datum: TextDatum::TopLeft }
}

/// The status bar: the screen is cleared, the bar is filled, and the quota
/// and the connectivity are written on it.
pub open spec fn spec_status_bar(rate_limit: RateLimitInfo, wifi_connected: bool, font_height: int) -> Seq<DrawOp> {
    seq![
        DrawOp::Clear { color: light() },
        DrawOp::FillRect { x: 0, y: 0, w: SCREEN_WIDTH as int, h: font_height, color: dark() },
        text_op(spec_rate_limit_text(rate_limit), 0, 0, dark(), light(), SMALL_SCALE as nat),
        text_op(spec_wifi_text(wifi_connected), CHART_LEFT as int, 0, dark(), light(), SMALL_SCALE as nat),
    ]
}

/// The title of the panel of `measurement`.
pub open spec fn spec_title(measurement: Measurement) -> Seq<u8> {
    match measurement {
        Measurement::Temperature => "Temperature:".spec_bytes(),
        Measurement::Humidity => "Humidity:".spec_bytes(),
        Measurement::LuminousLevel => "Luminous:".spec_bytes(),
        Measurement::Power => "Power:".spec_bytes(),
    }
}

/// How a value of `measurement` is written: power as a whole number, the
/// others with one decimal place.
pub open spec fn spec_value_text(measurement: Measurement, value: int) -> Seq<u8> {
    match measurement {
        Measurement::Power => spec_format_whole(value),
        _ => spec_format_tenths(value),
    }
}

/// The three values written beside a chart, from top to bottom: the current
/// reading, then the range. The temperature panel names the lowest value
/// first, the other panels the highest. Without a record each reads `--`.
pub open spec fn spec_panel_values(history: History, measurement: Measurement) -> (Seq<u8>, Seq<u8>, Seq<u8>) {
    match history.latest() {
        Some(latest) => {
            let range = spec_range(history.items, measurement);
            let current = spec_value_text(measurement, spec_reading(latest.0, measurement) as int);
            let lowest = spec_value_text(measurement, range.min as int);
            let highest = spec_value_text(measurement, range.max as int);
            if measurement is Temperature {
                (current, lowest, highest)
            } else {
                (current, highest, lowest)
            }
        },
        None => (spec_placeholder(), spec_placeholder(), spec_placeholder()),
    }
}

/// Panel `slot`, counted from the top: the chart of `measurement` over the
/// retained records, then the title and the three values to its left.
pub open spec fn spec_panel(history: History, measurement: Measurement, slot: int, font_height: int) -> Seq<DrawOp> {
    let line_height = spec_line_height(font_height);
    let chart_height = spec_chart_height(font_height);
    let top = font_height + chart_height * slot;
    let range = spec_range(history.items, measurement);
    let chart = Chart {
        width: (SCREEN_WIDTH - CHART_LEFT) as i32,
        height: chart_height as i32,
        foreground: dark(),
        background: light(),
    };
    let values = spec_panel_values(history, measurement);
    chart.drawing(
        Plot {
            left: CHART_LEFT as int,
            top,
            count: history.items.len() as int,
            min: range.min as int,
            max: range.max as int,
            values: spec_series(history.items, measurement),
        },
    ) + seq![
        text_op(spec_title(measurement), 0, top, light(), dark(), SMALL_SCALE as nat),
        text_op(values.0, VALUE_MARGIN_LEFT as int, top + line_height, light(), dark(), FULL_SCALE as nat),
        text_op(values.1, VALUE_MARGIN_LEFT as int, top + 2 * line_height, light(), dark(), SMALL_SCALE as nat),
        text_op(
            values.2,
            VALUE_MARGIN_LEFT as int,
            top + 2 * line_height + line_height * 3 / 4,
            light(),
            dark(),
            SMALL_SCALE as nat,
        ),
    ]
}

/// One frame: the status bar, then the temperature, humidity and power
/// panels from top to bottom.
pub open spec fn spec_frame(
    history: History,
    rate_limit: RateLimitInfo,
    wifi_connected: bool,
    font_height: int,
) -> Seq<DrawOp> {
    spec_status_bar(rate_limit, wifi_connected, font_height) + spec_panel(
        history,
        Measurement::Temperature,
        0,
        font_height,
    ) + spec_panel(history, Measurement::Humidity, 1, font_height) + spec_panel(
        history,
        Measurement::Power,
        2,
        font_height,
    )
}

/// Writes a value of `measurement`.
pub fn value_text(measurement: Measurement, value: i64) -> (r: Vec<u8>)
    ensures
        r@ == spec_value_text(measurement, value as int),
{
    match measurement {
        Measurement::Power => format_whole(value),
        _ => format_tenths(value),
    }
}

/// The title of the panel of `measurement`.
pub fn title(measurement: Measurement) -> (r: Vec<u8>)
    ensures
        r@ == spec_title(measurement),
{
    match measurement {
        Measurement::Temperature => slice_to_vec("Temperature:".as_bytes()),
        Measurement::Humidity => slice_to_vec("Humidity:".as_bytes()),
        Measurement::LuminousLevel => slice_to_vec("Luminous:".as_bytes()),
        Measurement::Power => slice_to_vec("Power:".as_bytes()),
    }
}

/// Draws the status bar.
pub fn draw_status_bar(target: &mut Canvas, rate_limit: &RateLimitInfo, wifi_connected: bool, font_height: i32)
    ensures
        final(target)@ == old(target)@ + spec_status_bar(*rate_limit, wifi_connected, font_height as int),
{
    let light = ColorRgb332::new(0xff);
    let dark = ColorRgb332::new(0x00);
    target.clear(light);
    target.fill_rect(0, 0, SCREEN_WIDTH, font_height, dark);
    target.draw_string(rate_limit_text(rate_limit), 0, 0, dark, light, SMALL_SCALE, SMALL_SCALE, TextDatum::TopLeft);
    target.draw_string(
        wifi_text(wifi_connected),
        CHART_LEFT,
        0,
        dark,
        light,
        SMALL_SCALE,
        SMALL_SCALE,
        TextDatum::TopLeft,
    );
    assert(target@ =~= old(target)@ + spec_status_bar(*rate_limit, wifi_connected, font_height as int));
}

/// Draws panel `slot` of three, counted from the top, for `measurement`.
pub fn draw_panel<const N: usize>(
    target: &mut Canvas,
    records: &SensorRecords<N>,
    measurement: Measurement,
    slot: i32,
    font_height: i32,
)
    requires
        records.wf(),
        layout_fits(font_height as int),
        0 <= slot < 3,
    ensures
        final(target)@ == old(target)@ + spec_panel(records@, measurement, slot as int, font_height as int),
{
    let light = ColorRgb332::new(0xff);
    let dark = ColorRgb332::new(0x00);
    let line_height: i32 = ((font_height as i64) * 9 / 8) as i32;
    let chart_height: i32 = (SCREEN_HEIGHT - line_height) / 3;
    let top: i32 = font_height + chart_height * slot;
    let items = records.iter();
    let range = range_of(items, measurement);
    proof {
        lemma_range_is_unique(range, spec_range(items@, measurement), items@, measurement);
    }
    let series = series(items, measurement);
    let chart = Chart::new(SCREEN_WIDTH - CHART_LEFT, chart_height, dark, light);
    chart.draw(target, CHART_LEFT, top, items.len(), range.min, range.max, series.as_slice());
    let (current, second, third) = match records.latest() {
        Some((record, _)) => {
            let current = value_text(measurement, reading(&record, measurement));
            let lowest = value_text(measurement, range.min);
            let highest = value_text(measurement, range.max);
            match measurement {
                Measurement::Temperature => (current, lowest, highest),
                _ => (current, highest, lowest),
            }
        },
        None => (placeholder(), placeholder(), placeholder()),
    };
    target.draw_string(title(measurement), 0, top, light, dark, SMALL_SCALE, SMALL_SCALE, TextDatum::TopLeft);
    target.draw_string(
        current,
        VALUE_MARGIN_LEFT,
        top + line_height,
        light,
        dark,
        FULL_SCALE,
        FULL_SCALE,
        TextDatum::TopLeft,
    );
    target.draw_string(
        second,
        VALUE_MARGIN_LEFT,
        top + 2 * line_height,
        light,
        dark,
        SMALL_SCALE,
        SMALL_SCALE,
        TextDatum::TopLeft,
    );
    target.draw_string(
        third,
        VALUE_MARGIN_LEFT,
        top + 2 * line_height + line_height * 3 / 4,
        light,
        dark,
        SMALL_SCALE,
        SMALL_SCALE,
        TextDatum::TopLeft,
    );
    assert(target@ =~= old(target)@ + spec_panel(records@, measurement, slot as int, font_height as int));
}

/// Draws one frame.
pub fn draw_frame<const N: usize>(
    target: &mut Canvas,
    records: &SensorRecords<N>,
    rate_limit: &RateLimitInfo,
    wifi_connected: bool,
    font_height: i32,
)
    requires
        records.wf(),
        layout_fits(font_height as int),
    ensures
        final(target)@ == old(target)@ + spec_frame(records@, *rate_limit, wifi_connected, font_height as int),
{
    draw_status_bar(target, rate_limit, wifi_connected, font_height);
    draw_panel(target, records, Measurement::Temperature, 0, font_height);
    draw_panel(target, records, Measurement::Humidity, 1, font_height);
    draw_panel(target, records, Measurement::Power, 2, font_height);
    assert(target@ =~= old(target)@ + spec_frame(
        records@,
        *rate_limit,
        wifi_connected,
        font_height as int,
    ));
}

/// One pass of the render stage: the pending sample and the pending quota
/// are taken in, and the frame that shows the result is drawn on a fresh
/// surface.
pub fn ui_task<const N: usize>(
    records: &mut SensorRecords<N>,
    rate_limit: &mut RateLimitInfo,
    sampled: &mut Mailbox<Stamped>,
    reported: &mut Mailbox<RateLimitInfo>,
    wifi_connected: bool,
    font_height: i32,
) -> (frame: Canvas)
    requires
        old(records).wf(),
        layout_fits(font_height as int),
    ensures
        final(records).wf(),
        final(records)@ == after_intake(old(records)@, N as nat, old(sampled)@),
        final(sampled)@ is None,
        final(reported)@ is None,
        *final(rate_limit) == match old(reported)@ {
            Some(q) => q,
            None => *old(rate_limit),
        },
        frame@ == spec_frame(final(records)@, *final(rate_limit), wifi_connected, font_height as int),
{
    take_sample(records, sampled);
    take_rate_limit(rate_limit, reported);
    let mut frame = Canvas::new();
    draw_frame(&mut frame, records, rate_limit, wifi_connected, font_height);
    assert(frame@ =~= spec_frame(records@, *rate_limit, wifi_connected, font_height as int));
    frame
}

} // verus!
