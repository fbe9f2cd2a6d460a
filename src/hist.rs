//! Geometry of a history plot: each point becomes a vertical column, right
//! aligned, its height rescaled between the smallest and largest value
//! shown.

use vstd::prelude::*;
use crate::queue::{queue_items, queue_values, History};

verus! {

/// A pixel position.
#[derive(Copy, Clone, Debug, PartialEq, Eq, Structural)]
pub struct Point {
    pub x: i32,
    pub y: i32,
}

/// A size in pixels.
#[derive(Copy, Clone, Debug, PartialEq, Eq, Structural)]
pub struct Size {
    pub width: u32,
    pub height: u32,
}

/// One column of a plot: from the bottom `[0]` to the value `[1]` it is
/// drawn in the foreground colour, from there to the top `[2]` in the
/// background colour.
pub type ThreePoints = [Point; 3];

/// Errors in drawing a plot.
#[derive(Copy, Clone, Debug, PartialEq, Eq, Structural)]
pub enum Error {
    /// The drawing surface refused to draw.
    DrawError,
}

/// A plot of a history in the window of size `size` whose upper left corner
/// is `upper_left`.
#[derive(Copy, Clone, Debug, PartialEq, Eq, Structural)]
pub struct Hist {
    pub upper_left: Point,
    pub size: Size,
}

/// The smallest value of `s`, or `i16::MAX` when it is empty.
pub open spec fn seq_min(s: Seq<i16>) -> i16
    decreases s.len(),
{
    if s.len() == 0 {
        i16::MAX
    } else if s.last() < seq_min(s.drop_last()) {
        s.last()
    } else {
        seq_min(s.drop_last())
    }
}

/// The largest value of `s`, or `i16::MIN` when it is empty.
pub open spec fn seq_max(s: Seq<i16>) -> i16
    decreases s.len(),
{
    if s.len() == 0 {
        i16::MIN
    } else if s.last() > seq_max(s.drop_last()) {
        s.last()
    } else {
        seq_max(s.drop_last())
    }
}

/// Every value of `s` lies between its smallest and its largest.
proof fn lemma_within_min_max(s: Seq<i16>)
    ensures
        forall|i: int| 0 <= i < s.len() ==> seq_min(s) <= #[trigger] s[i] <= seq_max(s),
    decreases s.len(),
{
    if s.len() > 0 {
        lemma_within_min_max(s.drop_last());
        assert forall|i: int| 0 <= i < s.len() implies seq_min(s) <= #[trigger] s[i] <= seq_max(
            s,
        ) by {
            if i < s.len() - 1 {
                assert(s[i] == s.drop_last()[i]);
            }
        }
    }
}

/// Height in pixels of value `v` in a plot of height `height` whose values
/// range from `lo` to `hi`: proportional, rounded down, and half the height
/// when all values are equal.
pub open spec fn rescaled(v: i16, lo: i16, hi: i16, height: u32) -> int {
    if hi == lo {
        height as int / 2
    } else {
        (v - lo) * height / (hi - lo)
    }
}

/// The column of the `i`-th of `n` values, of value `v`, in plot `h`
/// whose values range from `lo` to `hi`. Columns are right aligned: the
/// last value is drawn in the rightmost column.
pub open spec fn column(h: Hist, n: int, i: int, v: i16, lo: i16, hi: i16) -> ThreePoints {
    let x = (h.upper_left.x + h.size.width - n + i) as i32;
    let bottom = h.upper_left.y + h.size.height;
    [
        Point { x, y: bottom as i32 },
        Point { x, y: (bottom - rescaled(v, lo, hi, h.size.height)) as i32 },
        Point { x, y: (bottom - h.size.height + 1) as i32 },
    ]
}

/// The smallest and largest value held by `queue`, `(i16::MAX, i16::MIN)`
/// when it is empty.
pub fn min_max(queue: &History) -> (r: (i16, i16))
    ensures
        r == (seq_min(queue_items(*queue)), seq_max(queue_items(*queue))),
{
    let values = queue_values(queue);
    let mut min = i16::MAX;
    let mut max = i16::MIN;
    let mut i: usize = 0;
    while i < values.len()
        invariant
            i <= values@.len(),
            min == seq_min(values@.subrange(0, i as int)),
            max == seq_max(values@.subrange(0, i as int)),
        decreases values.len() - i,
    {
        assert(values@.subrange(0, i + 1).drop_last() =~= values@.subrange(0, i as int));
        if values[i] < min {
            min = values[i];
        }
        if values[i] > max {
            max = values[i];
        }
        i += 1;
    }
    assert(values@.subrange(0, i as int) =~= values@);
    (min, max)
}

impl Hist {
    /// A plot in the window at `upper_left` of size `size`.
    pub fn new(upper_left: Point, size: Size) -> (r: Hist)
        ensures
            r.upper_left == upper_left,
            r.size == size,
    {
        Hist { upper_left, size }
    }

    /// The columns that plot the values of `queue`, oldest first (see
    /// `column`).
    pub fn draw_lines(&self, queue: &History) -> (r: Vec<ThreePoints>)
        ensures
            ({
                let s = queue_items(*queue);
                &&& r@.len() == s.len()
                &&& forall|i: int|
                    0 <= i < s.len() ==> #[trigger] r@[i] == column(
                        *self,
                        s.len() as int,
                        i,
                        s[i],
                        seq_min(s),
                        seq_max(s),
                    )
            }),
    {
        let values = queue_values(queue);
        let (min, max) = min_max(queue);
        proof {
            lemma_within_min_max(values@);
        }
        let n = values.len();
        let mut result: Vec<ThreePoints> = Vec::new();
        let height = self.size.height as i64;
        let baseline_y = self.upper_left.y as i64 + height;
        let left = self.upper_left.x as i64 + self.size.width as i64 - n as i64;
        let mut i: usize = 0;
        while i < n
            invariant
                n == values@.len(),
                n <= 128,
                values@ == queue_items(*queue),
                min == seq_min(values@),
                max == seq_max(values@),
                forall|j: int| 0 <= j < n ==> min <= #[trigger] values@[j] <= max,
                height == self.size.height,
                baseline_y == self.upper_left.y + self.size.height,
                left == self.upper_left.x + self.size.width - n,
                i <= n,
                result@.len() == i,
                forall|j: int|
                    0 <= j < i ==> #[trigger] result@[j] == column(
                        *self,
                        n as int,
                        j,
                        values@[j],
                        min,
                        max,
                    ),
            decreases n - i,
        {
            let val = values[i];
            let x = (left + i as i64) as i32;
            let rescaled: i64 = if max == min {
                height / 2
            } else {
                let d = (val as i64) - (min as i64);
                let delta = (max as i64) - (min as i64);
                assert(0 <= d * height <= 65535 * 0xffff_ffff) by (nonlinear_arith)
                    requires
                        0 <= d <= 65535,
                        0 <= height <= 0xffff_ffff,
                ;
                d * height / delta
            };
            let a = Point { x, y: baseline_y as i32 };
            let b = Point { x, y: (baseline_y - rescaled) as i32 };
            let c = Point { x, y: (baseline_y - height + 1) as i32 };
            result.push([a, b, c]);
            i += 1;
        }
        result
    }
}

} // verus!
