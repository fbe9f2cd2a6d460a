//! What a redraw of the display model draws, in order: a clear and the
//! titles when the screen must be cleared, then per probe its temperature
//! and its history plot.

use vstd::prelude::*;
use crate::hist::{Hist, Point, Size};
use crate::screen::{Model, ScreenType};
use crate::temp::Temp;
use crate::unit::Unit;

verus! {

/// One drawing operation on the screen.
#[derive(Copy, Clone, Debug, PartialEq, Eq, Structural)]
pub enum DrawOp {
    /// Blank the whole screen.
    Clear,
    /// The title of probe `probe` with its upper left corner at (`x`, `y`).
    Title { probe: usize, x: i32, y: i32 },
    /// Temperature `temp` in `unit`, in the large font when `large`.
    Temperature { x: i32, y: i32, large: bool, temp: Temp, unit: Unit },
    /// The history of probe `probe` plotted by `hist`.
    Plot { hist: Hist, probe: usize },
    /// The minimum (or the maximum, when `max`) `temp` of a probe, in small
    /// type, without the unit.
    MinMax { x: i32, y: i32, max: bool, temp: Temp, unit: Unit },
}

/// The probe that a single-probe screen shows.
pub open spec fn probe_of(second: bool) -> usize {
    if second {
        1
    } else {
        0
    }
}

/// The titles drawn after a clear.
pub open spec fn titles(s: ScreenType) -> Seq<DrawOp> {
    match s {
        ScreenType::Both => seq![
            DrawOp::Title { probe: 0, x: 0, y: 0 },
            DrawOp::Title { probe: 1, x: 0, y: 64 },
        ],
        ScreenType::Single(b) => seq![DrawOp::Title { probe: probe_of(b), x: 0, y: 0 }],
    }
}

/// The latest temperature of probe `i` at (`x`, `y`), when there is one.
pub open spec fn temperature_op(m: Model, i: int, x: i32, y: i32, large: bool) -> Seq<DrawOp> {
    match m.last {
        Some(t) => seq![DrawOp::Temperature { x, y, large, temp: t[i], unit: m.unit }],
        None => Seq::empty(),
    }
}

/// The plot of probe `i` in the window at (`x`, `y`) of the given height,
/// as wide as the screen.
pub open spec fn plot_op(i: usize, x: i32, y: i32, height: u32) -> DrawOp {
    DrawOp::Plot {
        hist: Hist { upper_left: Point { x, y }, size: Size { width: 128, height } },
        probe: i,
    }
}

/// What shows the probes: on a screen of both, each probe's temperature
/// and a plot in its half; on a single-probe screen, the temperature large,
/// a taller plot, and the probe's minimum and maximum.
pub open spec fn probes_ops(m: Model) -> Seq<DrawOp> {
    match m.screen_type {
        ScreenType::Both => temperature_op(m, 0, 32, 6, false) + seq![plot_op(0, 0, 30, 30)]
            + temperature_op(m, 1, 32, 70, false) + seq![plot_op(1, 0, 94, 30)],
        ScreenType::Single(b) => {
            let i = probe_of(b);
            temperature_op(m, i as int, 0, 20, true) + seq![
                plot_op(i, 0, 53, 45),
                DrawOp::MinMax { x: 0, y: 110, max: false, temp: m.mins[i as int], unit: m.unit },
                DrawOp::MinMax { x: 68, y: 110, max: true, temp: m.maxs[i as int], unit: m.unit },
            ]
        },
    }
}

/// The operations of a redraw of `m`: none unless it changed; a clear and
/// the titles first when it must be cleared; then what shows the probes.
pub open spec fn frame_ops(m: Model) -> Seq<DrawOp> {
    if !m.changed {
        Seq::empty()
    } else if m.clear {
        seq![DrawOp::Clear] + titles(m.screen_type) + probes_ops(m)
    } else {
        probes_ops(m)
    }
}

/// Appends the latest temperature of probe `i`, when there is one.
fn push_temperature(ops: &mut Vec<DrawOp>, m: &Model, i: usize, x: i32, y: i32, large: bool)
    requires
        i < 2,
    ensures
        final(ops)@ == old(ops)@ + temperature_op(*m, i as int, x, y, large),
{
    match m.last {
        Some(t) => {
            ops.push(DrawOp::Temperature { x, y, large, temp: t[i], unit: m.unit });
        },
        None => {},
    }
    assert(final(ops)@ =~= old(ops)@ + temperature_op(*m, i as int, x, y, large));
}

/// The plot of probe `i` in the window at (`x`, `y`) of the given height.
fn plot(i: usize, x: i32, y: i32, height: u32) -> (r: DrawOp)
    ensures
        r == plot_op(i, x, y, height),
{
    DrawOp::Plot { hist: Hist::new(Point { x, y }, Size { width: 128, height }), probe: i }
}

/// The titles to draw after a clear of a screen of type `screen_type`: both
/// titles, one above the other, or the shown probe's.
pub fn draw_titles(screen_type: ScreenType) -> (r: Vec<DrawOp>)
    ensures
        r@ == titles(screen_type),
{
    let mut ops: Vec<DrawOp> = Vec::new();
    match screen_type {
        ScreenType::Both => {
            ops.push(DrawOp::Title { probe: 0, x: 0, y: 0 });
            ops.push(DrawOp::Title { probe: 1, x: 0, y: 64 });
        },
        ScreenType::Single(b) => {
            let probe: usize = if b {
                1
            } else {
                0
            };
            ops.push(DrawOp::Title { probe, x: 0, y: 0 });
        },
    }
    assert(ops@ =~= titles(screen_type));
    ops
}

/// The operations that redraw `model`, in order (see `frame_ops`).
pub fn plan_frame(model: &Model) -> (r: Vec<DrawOp>)
    ensures
        r@ == frame_ops(*model),
{
    let mut ops: Vec<DrawOp> = Vec::new();
    if !model.changed {
        return ops;
    }
    if model.clear {
        ops.push(DrawOp::Clear);
        let mut titles = draw_titles(model.screen_type);
        ops.append(&mut titles);
    }
    let ghost head = ops@;
    match model.screen_type {
        ScreenType::Both => {
            push_temperature(&mut ops, model, 0, 32, 6, false);
            ops.push(plot(0, 0, 30, 30));
            push_temperature(&mut ops, model, 1, 32, 70, false);
            ops.push(plot(1, 0, 94, 30));
        },
        ScreenType::Single(b) => {
            let i: usize = if b {
                1
            } else {
                0
            };
            push_temperature(&mut ops, model, i, 0, 20, true);
            ops.push(plot(i, 0, 53, 45));
            ops.push(DrawOp::MinMax { x: 0, y: 110, max: false, temp: model.min_or_max(false, i), unit: model.unit });
            ops.push(DrawOp::MinMax { x: 68, y: 110, max: true, temp: model.min_or_max(true, i), unit: model.unit });
        },
    }
    assert(ops@ =~= head + probes_ops(*model));
    assert(ops@ =~= frame_ops(*model));
    ops
}

/// The title of probe `probe`: outside and cabin air temperature.
pub fn title(probe: usize) -> (r: &'static str)
    ensures
        r == if probe == 0 {
            "OAT"
        } else {
            "CAT"
        },
{
    if probe == 0 {
        "OAT"
    } else {
        "CAT"
    }
}

} // verus!
