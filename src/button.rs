//! Debounced push buttons: a press counts only when enough time has passed
//! since the previous one.

use vstd::prelude::*;
use crate::screen::{next_screen_type, ModelChange, ScreenType};
use crate::unit::{next_unit, Unit};

verus! {

/// A point in time, in ticks of a free-running millisecond counter that
/// wraps around.
#[derive(Copy, Clone, Debug, PartialEq, Eq, Structural)]
pub struct Instant {
    pub ticks: u64,
}

/// Ticks that must pass between two presses for the second to count.
pub const ENOUGH_TIME_BUTTON_PRESSED: u64 = 200;

/// Ticks from `earlier` to `later`, modulo 2^64, so that a wrap of the
/// counter in between is accounted for.
pub open spec fn elapsed(earlier: Instant, later: Instant) -> int {
    (later.ticks - earlier.ticks) % 0x1_0000_0000_0000_0000
}

/// Whether a press at `now`, after one at `last`, counts.
pub open spec fn accepted(last: Instant, now: Instant) -> bool {
    elapsed(last, now) > ENOUGH_TIME_BUTTON_PRESSED
}

impl Instant {
    /// The instant `ticks` ticks after the start of the counter.
    pub fn from_ticks(ticks: u64) -> (r: Instant)
        ensures
            r.ticks == ticks,
    {
        Instant { ticks }
    }

    /// Ticks from `earlier` to `self`, modulo 2^64.
    pub fn since(&self, earlier: Instant) -> (r: u64)
        ensures
            r == elapsed(earlier, *self),
    {
        if self.ticks >= earlier.ticks {
            self.ticks - earlier.ticks
        } else {
            (u64::MAX - earlier.ticks) + self.ticks + 1
        }
    }
}

/// A push button's debounce state: when its last press happened.
#[derive(Copy, Clone, Debug, PartialEq, Eq, Structural)]
pub struct Button {
    pub last: Instant,
}

impl Button {
    /// A button that has not been pressed since `start`.
    pub fn new(start: Instant) -> (r: Button)
        ensures
            r.last == start,
    {
        Button { last: start }
    }

    /// Records a press at `instant` and returns whether it counts: whether
    /// more than `ENOUGH_TIME_BUTTON_PRESSED` ticks passed since the previous
    /// press, counted or not.
    pub fn pressed(&mut self, instant: Instant) -> (r: bool)
        ensures
            r == accepted(old(self).last, instant),
            final(self).last == instant,
    {
        let enough_time_passed = instant.since(self.last) > ENOUGH_TIME_BUTTON_PRESSED;
        self.last = instant;
        enough_time_passed
    }
}

/// Of two presses `delta` ticks apart, the second counts exactly when
/// `delta` exceeds the threshold, whatever the first, and across a wrap of
/// the counter.
pub proof fn lemma_second_press(t: Instant, delta: u64)
    ensures
        accepted(t, Instant { ticks: ((t.ticks + delta) % 0x1_0000_0000_0000_0000) as u64 })
            == (delta > ENOUGH_TIME_BUTTON_PRESSED),
{
    let later = ((t.ticks + delta) % 0x1_0000_0000_0000_0000) as int;
    if t.ticks + delta < 0x1_0000_0000_0000_0000 {
        assert(later == t.ticks + delta);
    } else {
        assert(later == t.ticks + delta - 0x1_0000_0000_0000_0000);
    }
}

/// A press of the button that cycles the screen type: when it counts, the
/// screen type moves on and the change to report is returned.
pub fn screen_button_pressed(button: &mut Button, screen: &mut ScreenType, now: Instant) -> (r:
    Option<ModelChange>)
    ensures
        final(button).last == now,
        accepted(old(button).last, now) ==> *final(screen) == next_screen_type(*old(screen)) && r
            == Some(ModelChange::ScreenType(*final(screen))),
        !accepted(old(button).last, now) ==> *final(screen) == *old(screen) && r is None,
{
    if button.pressed(now) {
        let new = screen.next();
        Some(ModelChange::ScreenType(new))
    } else {
        None
    }
}

/// A press of the button that cycles the unit: when it counts, the unit
/// moves on and the change to report is returned.
pub fn unit_button_pressed(button: &mut Button, unit: &mut Unit, now: Instant) -> (r: Option<
    ModelChange,
>)
    ensures
        final(button).last == now,
        accepted(old(button).last, now) ==> *final(unit) == next_unit(*old(unit)) && r == Some(
            ModelChange::Unit(*final(unit)),
        ),
        !accepted(old(button).last, now) ==> *final(unit) == *old(unit) && r is None,
{
    if button.pressed(now) {
        let new = unit.next();
        Some(ModelChange::Unit(new))
    } else {
        None
    }
}

} // verus!
