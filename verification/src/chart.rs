//! Line-chart geometry: a series of optional values becomes a border and a
//! poly-line that breaks at every gap.

use vstd::prelude::*;
use crate::surface::{Canvas, ColorRgb332, DrawOp};

verus! {

/// The x-coordinate of column `index` when `width` pixels starting at `left`
/// are divided evenly among `count` columns, each column placed at its
/// centre.
pub open spec fn column_x(left: int, width: int, count: int, index: int) -> int
    recommends
        count > 0,
        width >= 0,
{
    left + (width * index + count / 2 - 1) / count
}

/// `num / den` rounded to the nearest integer, halves away from zero, for a
/// positive divisor.
pub open spec fn round_ratio_pos(num: int, den: int) -> int
    recommends
        den > 0,
{
    if num >= 0 {
        (2 * num + den) / (2 * den)
    } else {
        -((den - 2 * num) / (2 * den))
    }
}

/// `num / den` rounded to the nearest integer, halves away from zero.
pub open spec fn round_ratio(num: int, den: int) -> int
    recommends
        den != 0,
{
    if den < 0 {
        round_ratio_pos(-num, -den)
    } else {
        round_ratio_pos(num, den)
    }
}

/// `v` limited to the range of a pixel coordinate.
pub open spec fn clamp_coord(v: int) -> int {
    if v < i32::MIN {
        i32::MIN as int
    } else if v > i32::MAX {
        i32::MAX as int
    } else {
        v
    }
}

/// The y-coordinate of `value`: the values from `min` to `max` are mapped
/// linearly onto the pixel rows from `bottom` to `top`, so that `min` lies on
/// `bottom` and `max` on `top`; the result is rounded to the nearest row and
/// limited to the coordinate range.
pub open spec fn value_y(bottom: int, top: int, min: int, max: int, value: int) -> int
    recommends
        min != max,
{
    clamp_coord(bottom - round_ratio((value - min) * (bottom - top), max - min))
}

/// The value of the series at `index`; an index past the end is a gap.
pub open spec fn value_at(values: Seq<Option<i64>>, index: int) -> Option<i64> {
    if 0 <= index < values.len() {
        values[index]
    } else {
        None
    }
}

/// A line chart of fixed size and colours.
#[derive(Clone, Copy, Debug, PartialEq, Eq, Structural)]
pub struct Chart {
    pub width: i32,
    pub height: i32,
    pub foreground: ColorRgb332,
    pub background: ColorRgb332,
}

/// Where a chart is drawn and what it shows: the top-left corner, the number
/// of columns, the value range and the series.
pub struct Plot {
    pub left: int,
    pub top: int,
    pub count: int,
    pub min: int,
    pub max: int,
    pub values: Seq<Option<i64>>,
}

impl Chart {
    pub fn new(width: i32, height: i32, foreground: ColorRgb332, background: ColorRgb332) -> (r: Self)
        ensures
            r == (Chart { width, height, foreground, background }),
    {
        Chart { width, height, foreground, background }
    }

    /// Whether the chart's region, placed with its top-left corner at
    /// `(left, top)`, lies within the coordinate range with one pixel to spare
    /// on every side.
    pub open spec fn spec_fits_at(&self, left: int, top: int) -> bool {
        &&& self.width >= 0
        &&& self.height >= 0
        &&& i32::MIN < left
        &&& i32::MIN < top
        &&& left + self.width <= i32::MAX
        &&& top + self.height <= i32::MAX
    }

    /// Whether the chart can be drawn with its top-left corner at `(left, top)`.
    pub fn fits_at(&self, left: i32, top: i32) -> (r: bool)
        ensures
            r == self.spec_fits_at(left as int, top as int),
    {
        self.width >= 0 && self.height >= 0 && left > i32::MIN && top > i32::MIN && left
            <= i32::MAX - self.width && top <= i32::MAX - self.height
    }

    /// A line in the chart's foreground colour.
    pub open spec fn line(&self, x0: int, y0: int, x1: int, y1: int) -> DrawOp {
        DrawOp::DrawLine { x0, y0, x1, y1, color: self.foreground }
    }

    /// The four border lines: top, bottom, left, right.
    pub open spec fn border(&self, left: int, top: int) -> Seq<DrawOp> {
        let right = left + self.width - 1;
        let bottom = top + self.height - 1;
        seq![
            self.line(left, top, right, top),
            self.line(left, bottom, right, bottom),
            self.line(left, top, left, bottom),
            self.line(right, top, right, bottom),
        ]
    }

    /// The projected point of column `index`, whose value is `value`.
    pub open spec fn point(&self, plot: Plot, index: int, value: int) -> (int, int) {
        (
            column_x(plot.left, self.width as int, plot.count, index),
            value_y(plot.top + self.height - 1, plot.top, plot.min, plot.max, value),
        )
    }

    /// The segment that ends at column `index`: present exactly when that
    /// column and the one before it both have a value.
    pub open spec fn segment_ending_at(&self, plot: Plot, index: int) -> Option<DrawOp> {
        let from = value_at(plot.values, index - 1);
        let to = value_at(plot.values, index);
        if index >= 1 && from is Some && to is Some {
            let p = self.point(plot, index - 1, from->Some_0 as int);
            let q = self.point(plot, index, to->Some_0 as int);
            Some(self.line(p.0, p.1, q.0, q.1))
        } else {
            None
        }
    }

    /// The segments drawn for the first `upto` columns, in column order.
    pub open spec fn segments(&self, plot: Plot, upto: nat) -> Seq<DrawOp>
        decreases upto,
    {
        if upto == 0 {
            Seq::empty()
        } else {
            let before = self.segments(plot, (upto - 1) as nat);
            match self.segment_ending_at(plot, upto - 1) {
                Some(op) => before.push(op),
                None => before,
            }
        }
    }

    /// Everything the chart draws: the border, then, unless there are no
    /// columns or the range is degenerate, the segments.
    pub open spec fn drawing(&self, plot: Plot) -> Seq<DrawOp> {
        if plot.count <= 0 || plot.min == plot.max {
            self.border(plot.left, plot.top)
        } else {
            self.border(plot.left, plot.top) + self.segments(plot, plot.count as nat)
        }
    }

    /// Draws the chart with its top-left corner at `(left, top)`: the border,
    /// then one segment between each pair of neighbouring columns that both
    /// have a value. `values` holds the series; columns past its end are gaps.
    pub fn draw(
        &self,
        target: &mut Canvas,
        left: i32,
        top: i32,
        item_count: usize,
        min_value: i64,
        max_value: i64,
        values: &[Option<i64>],
    )
        requires
            self.spec_fits_at(left as int, top as int),
        ensures
            final(target)@ == old(target)@ + self.drawing(
                Plot {
                    left: left as int,
                    top: top as int,
                    count: item_count as int,
                    min: min_value as int,
                    max: max_value as int,
                    values: values@,
                },
            ),
    {
        let ghost plot = Plot {
            left: left as int,
            top: top as int,
            count: item_count as int,
            min: min_value as int,
            max: max_value as int,
            values: values@,
        };
        let right: i32 = left + self.width - 1;
        let bottom: i32 = top + self.height - 1;
        let foreground = self.foreground;
        target.draw_line(left, top, right, top, foreground);
        target.draw_line(left, bottom, right, bottom, foreground);
        target.draw_line(left, top, left, bottom, foreground);
        target.draw_line(right, top, right, bottom, foreground);
        assert(target@ =~= old(target)@ + self.border(left as int, top as int));
        if item_count == 0 || min_value == max_value {
            return ;
        }
        let mut prev_point: Option<(i32, i32)> = None;
        let mut index: usize = 0;
        assert(target@ =~= old(target)@ + self.border(left as int, top as int) + self.segments(
            plot,
            0,
        ));
        while index < item_count
            invariant
                0 <= index <= item_count,
                min_value != max_value,
                self.spec_fits_at(left as int, top as int),
                bottom == top + self.height - 1,
                foreground == self.foreground,
                plot == (Plot {
                    left: left as int,
                    top: top as int,
                    count: item_count as int,
                    min: min_value as int,
                    max: max_value as int,
                    values: values@,
                }),
                target@ == old(target)@ + self.border(left as int, top as int) + self.segments(
                    plot,
                    index as nat,
                ),
                index == 0 ==> prev_point is None,
                index > 0 ==> prev_point == match value_at(values@, index - 1) {
                    Some(v) => {
                        let p = self.point(plot, index - 1, v as int);
                        Some((p.0 as i32, p.1 as i32))
                    },
                    None => None,
                },
                index > 0 && value_at(values@, index - 1) is Some ==> {
                    let p = self.point(plot, index - 1, value_at(values@, index - 1)->Some_0 as int);
                    i32::MIN <= p.0 <= i32::MAX && i32::MIN <= p.1 <= i32::MAX
                },
            decreases item_count - index,
        {
            let x: i32 = column_position(left, self.width, item_count, index);
            let value: Option<i64> = if index < values.len() {
                values[index]
            } else {
                None
            };
            assert(value == value_at(values@, index as int));
            match value {
                Some(v) => {
                    let y: i32 = value_position(bottom, top, min_value, max_value, v);
                    if let Some((prev_x, prev_y)) = prev_point {
                        target.draw_line(prev_x, prev_y, x, y, foreground);
                    }
                    prev_point = Some((x, y));
                },
                None => {
                    prev_point = None;
                },
            }
            proof {
                let added = self.segment_ending_at(plot, index as int);
                assert(self.segments(plot, (index + 1) as nat) == match added {
                    Some(op) => self.segments(plot, index as nat).push(op),
                    None => self.segments(plot, index as nat),
                });
                assert(target@ =~= old(target)@ + self.border(left as int, top as int)
                    + self.segments(plot, (index + 1) as nat));
            }
            index = index + 1;
        }
    }
}

/// The x-coordinate of column `index` of `count`, for a region that fits the
/// coordinate range.
pub fn column_position(left: i32, width: i32, count: usize, index: usize) -> (x: i32)
    requires
        width >= 0,
        i32::MIN < left,
        left + width <= i32::MAX,
        index < count,
    ensures
        x == column_x(left as int, width as int, count as int, index as int),
        left - 1 <= x <= left + width,
{
    let n: i128 = count as i128;
    proof {
        lemma_column_bounds(width as int, count as int, index as int);
        assert(width * count <= 0x8000_0000 * 0x1_0000_0000_0000_0000) by (nonlinear_arith)
            requires
                0 <= width <= 0x8000_0000,
                0 <= count <= 0x1_0000_0000_0000_0000,
        ;
    }
    let numerator: i128 = (width as i128) * (index as i128) + n / 2 - 1;
    let quotient: i128 = if numerator >= 0 {
        ((numerator as u128) / (count as u128)) as i128
    } else {
        -1
    };
    (left as i128 + quotient) as i32
}

/// The y-coordinate of `value` on a chart whose pixel rows run from `bottom`
/// up to `top`.
pub fn value_position(bottom: i32, top: i32, min_value: i64, max_value: i64, value: i64) -> (y: i32)
    requires
        min_value != max_value,
    ensures
        y == value_y(bottom as int, top as int, min_value as int, max_value as int, value as int),
{
    let delta: i128 = value as i128 - min_value as i128;
    let span: i128 = bottom as i128 - top as i128;
    let range: i128 = max_value as i128 - min_value as i128;
    let delta_size: u128 = unsigned_abs(delta);
    let span_size: u128 = unsigned_abs(span);
    let range_size: u128 = unsigned_abs(range);
    assert(delta_size * span_size <= 0x1_0000_0000_0000_0000 * 0x1_0000_0000) by (nonlinear_arith)
        requires
            delta_size <= 0x1_0000_0000_0000_0000,
            span_size <= 0x1_0000_0000,
    ;
    let num_size: u128 = delta_size * span_size;
    let rounded: u128 = (2 * num_size + range_size) / (2 * range_size);
    proof {
        let num: int = delta * span;
        lemma_abs_of_product(delta as int, span as int);
        lemma_round_ratio_by_size(num, range as int);
        assert(spec_abs(num) == num_size);
        assert(rounded <= 2 * num_size + range_size) by (nonlinear_arith)
            requires
                rounded == (2 * num_size + range_size) / (2 * range_size),
                range_size > 0,
        ;
        if num == 0 {
            let d: int = range_size as int;
            assert(d / (2 * d) == 0) by (nonlinear_arith)
                requires
                    d > 0,
            ;
        }
        assert(round_ratio(num, range as int) == if ((delta < 0) != (span < 0)) != (range < 0) {
            -(rounded as int)
        } else {
            rounded as int
        });
    }
    let negative: bool = ((delta < 0) != (span < 0)) != (range < 0);
    let offset: i128 = if negative {
        -(rounded as i128)
    } else {
        rounded as i128
    };
    let exact: i128 = bottom as i128 - offset;
    if exact < i32::MIN as i128 {
        i32::MIN
    } else if exact > i32::MAX as i128 {
        i32::MAX
    } else {
        exact as i32
    }
}

/// The size of `v`.
pub open spec fn spec_abs(v: int) -> int {
    if v < 0 {
        -v
    } else {
        v
    }
}

/// The size of `v`, which must not be the lowest number of its type.
pub fn unsigned_abs(v: i128) -> (r: u128)
    requires
        v > i128::MIN,
    ensures
        r == spec_abs(v as int),
{
    if v < 0 {
        (-v) as u128
    } else {
        v as u128
    }
}

/// The size of a product is the product of the sizes, and the product is
/// negative only when exactly one factor is.
pub proof fn lemma_abs_of_product(a: int, b: int)
    ensures
        spec_abs(a * b) == spec_abs(a) * spec_abs(b),
        a * b < 0 ==> (a < 0) != (b < 0),
        a * b > 0 ==> (a < 0) == (b < 0),
{
    assert(spec_abs(a * b) == spec_abs(a) * spec_abs(b) && (a * b < 0 ==> (a < 0) != (b < 0)) && (a
        * b > 0 ==> (a < 0) == (b < 0))) by (nonlinear_arith);
}

/// A column's offset from the left edge lies between -1 and the width.
pub proof fn lemma_column_bounds(width: int, count: int, index: int)
    requires
        width >= 0,
        0 <= index < count,
    ensures
        -1 <= width * index + count / 2 - 1,
        width * index + count / 2 - 1 < (width + 1) * count,
        -1 <= (width * index + count / 2 - 1) / count <= width,
        width * index + count / 2 - 1 < 0 ==> (width * index + count / 2 - 1) / count == -1,
        0 <= width * index <= width * count,
{
    let numerator = width * index + count / 2 - 1;
    assert(0 <= width * index <= width * (count - 1)) by (nonlinear_arith)
        requires
            width >= 0,
            0 <= index < count,
    ;
    assert(width * (count - 1) == width * count - width) by (nonlinear_arith);
    assert((width + 1) * count == width * count + count) by (nonlinear_arith);
    if numerator >= 0 {
        assert(0 <= numerator / count <= width) by (nonlinear_arith)
            requires
                0 <= numerator < (width + 1) * count,
                count > 0,
        ;
    } else {
        assert(count == 1);
        assert(numerator == -1);
        assert(numerator / count == -1);
    }
}

/// Rounding the ratio of two signed numbers is rounding the ratio of their
/// sizes and setting the sign.
pub proof fn lemma_round_ratio_by_size(num: int, den: int)
    requires
        den != 0,
    ensures
        round_ratio(num, den) == if (num < 0) != (den < 0) {
            -((2 * spec_abs(num) + spec_abs(den)) / (2 * spec_abs(den)))
        } else {
            (2 * spec_abs(num) + spec_abs(den)) / (2 * spec_abs(den))
        },
{
    if num == 0 {
        let d = spec_abs(den);
        assert(d / (2 * d) == 0) by (nonlinear_arith)
            requires
                d > 0,
        ;
    }
}

/// Column positions never move left as the index grows.
pub proof fn lemma_column_x_monotonic(left: int, width: int, count: int, i: int, j: int)
    requires
        width >= 0,
        count >= 1,
        0 <= i <= j,
    ensures
        column_x(left, width, count, i) <= column_x(left, width, count, j),
{
    let a = width * i + count / 2 - 1;
    let b = width * j + count / 2 - 1;
    assert(width * i <= width * j) by (nonlinear_arith)
        requires
            width >= 0,
            i <= j,
    ;
    assert(a / count <= b / count) by (nonlinear_arith)
        requires
            a <= b,
            count > 0,
    ;
}

/// With a degenerate range only the border is drawn, however many columns
/// there are and whatever they hold.
pub proof fn lemma_degenerate_range_draws_border_only(chart: Chart, plot: Plot)
    requires
        plot.min == plot.max,
    ensures
        chart.drawing(plot) == chart.border(plot.left, plot.top),
        chart.drawing(plot).len() == 4,
{
}

/// A gap breaks the poly-line: no segment ends at a column without a value,
/// and none starts there.
pub proof fn lemma_gap_breaks_polyline(chart: Chart, plot: Plot, index: int)
    requires
        value_at(plot.values, index) is None,
    ensures
        chart.segment_ending_at(plot, index) is None,
        chart.segment_ending_at(plot, index + 1) is None,
{
}

/// The poly-line has one segment for each pair of neighbouring columns that
/// both have a value, so at most one less than there are columns.
pub proof fn lemma_segment_count(chart: Chart, plot: Plot, upto: nat)
    ensures
        chart.segments(plot, upto).len() <= if upto == 0 {
            0
        } else {
            upto - 1
        },
    decreases upto,
{
    if upto > 0 {
        lemma_segment_count(chart, plot, (upto - 1) as nat);
        if upto == 1 {
            assert(chart.segment_ending_at(plot, 0) is None);
        }
    }
}

/// Rounding keeps the order of the numerators.
pub proof fn lemma_round_ratio_monotonic(a: int, b: int, den: int)
    requires
        den > 0,
        a <= b,
    ensures
        round_ratio(a, den) <= round_ratio(b, den),
{
    if a >= 0 {
        assert((2 * a + den) / (2 * den) <= (2 * b + den) / (2 * den)) by (nonlinear_arith)
            requires
                den > 0,
                0 <= a <= b,
        ;
    } else if b >= 0 {
        assert((den - 2 * a) / (2 * den) >= 0) by (nonlinear_arith)
            requires
                den > 0,
                a < 0,
        ;
        assert((2 * b + den) / (2 * den) >= 0) by (nonlinear_arith)
            requires
                den > 0,
                b >= 0,
        ;
    } else {
        assert((den - 2 * b) / (2 * den) <= (den - 2 * a) / (2 * den)) by (nonlinear_arith)
            requires
                den > 0,
                a <= b < 0,
        ;
    }
}

/// Over a range that rises from `min` to `max`, on rows that rise from
/// `bottom` to `top`, a higher value never lies lower on the screen: its
/// y-coordinate is no greater.
pub proof fn lemma_higher_value_higher_on_screen(bottom: int, top: int, min: int, max: int, low: int, high: int)
    requires
        top <= bottom,
        min < max,
        low <= high,
    ensures
        value_y(bottom, top, min, max, high) <= value_y(bottom, top, min, max, low),
{
    assert((low - min) * (bottom - top) <= (high - min) * (bottom - top)) by (nonlinear_arith)
        requires
            top <= bottom,
            low <= high,
    ;
    lemma_round_ratio_monotonic((low - min) * (bottom - top), (high - min) * (bottom - top), max - min);
}

/// A whole multiple of the divisor is its own rounding.
pub proof fn lemma_round_ratio_exact(k: int, den: int)
    requires
        den > 0,
    ensures
        round_ratio(den * k, den) == k,
{
    if k >= 0 {
        assert(den * k >= 0 && (2 * (den * k) + den) / (2 * den) == k) by (nonlinear_arith)
            requires
                den > 0,
                k >= 0,
        ;
    } else {
        assert(den * k < 0 && (den - 2 * (den * k)) / (2 * den) == -k) by (nonlinear_arith)
            requires
                den > 0,
                k < 0,
        ;
    }
}

/// The ends of a rising range lie on the ends of the rows: the lowest value
/// on `bottom`, the highest on `top`.
pub proof fn lemma_range_ends(bottom: int, top: int, min: int, max: int)
    requires
        min < max,
    ensures
        value_y(bottom, top, min, max, min) == clamp_coord(bottom),
        value_y(bottom, top, min, max, max) == clamp_coord(top),
{
    let den = max - min;
    lemma_round_ratio_exact(0, den);
    lemma_round_ratio_exact(bottom - top, den);
    assert((min - min) * (bottom - top) == den * 0) by (nonlinear_arith)
        requires
            den == max - min,
    ;
    assert((max - min) * (bottom - top) == den * (bottom - top)) by (nonlinear_arith)
        requires
            den == max - min,
    ;
}

} // verus!
