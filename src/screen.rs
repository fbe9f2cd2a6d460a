//! The display model: a reducer from change events to what is shown, with
//! flags that tell the drawing side whether and how to redraw.

use vstd::prelude::*;
use crate::queue::{
    queue_dequeue, queue_enqueue, queue_items, queue_len, queue_new, History, HISTORY_CAPACITY,
};
use crate::ring::bounded_push;
use crate::temp::{Temp, Temps};
use crate::unit::Unit;

verus! {

/// Width of the screen in pixels, and so the number of history points shown.
pub const SCREEN_WIDTH: usize = 128;

/// What the screen shows: both probes, or one of them enlarged.
#[derive(Copy, Clone, Debug, PartialEq, Eq, Structural)]
pub enum ScreenType {
    Both,
    Single(bool),
}

/// The screen type after `s` in the cycle Both, Single(false), Single(true).
pub open spec fn next_screen_type(s: ScreenType) -> ScreenType {
    match s {
        ScreenType::Both => ScreenType::Single(false),
        ScreenType::Single(false) => ScreenType::Single(true),
        ScreenType::Single(true) => ScreenType::Both,
    }
}

impl ScreenType {
    /// Moves to the next screen type of the cycle and returns it.
    pub fn next(&mut self) -> (r: Self)
        ensures
            *final(self) == next_screen_type(*old(self)),
            r == *final(self),
    {
        *self = match self {
            ScreenType::Both => ScreenType::Single(false),
            ScreenType::Single(false) => ScreenType::Single(true),
            ScreenType::Single(true) => ScreenType::Both,
        };
        *self
    }
}

impl Default for ScreenType {
    fn default() -> (r: Self)
        ensures
            r == ScreenType::Both,
    {
        ScreenType::Both
    }
}

/// Three moves bring the screen type back, after visiting every screen type
/// once.
pub proof fn lemma_screen_type_cycle(s: ScreenType)
    ensures
        next_screen_type(next_screen_type(next_screen_type(s))) == s,
        next_screen_type(s) != s,
        next_screen_type(next_screen_type(s)) != s,
        next_screen_type(next_screen_type(s)) != next_screen_type(s),
{
}

/// A change that the display model consumes.
#[derive(Copy, Clone, Debug)]
pub enum ModelChange {
    /// New latest temperatures.
    Last(Temps),
    /// New latest temperatures, and averages that become a history point.
    LastAndAverage(Temps, Temps),
    /// Another unit was chosen.
    Unit(Unit),
    /// Another screen type was chosen.
    ScreenType(ScreenType),
    /// The screen must be redrawn from scratch.
    Clear,
}

/// What is on screen, and whether the next draw must redraw (`changed`) and
/// first clear the screen (`clear`).
pub struct Model {
    pub last: Option<Temps>,
    pub mins: Temps,
    pub maxs: Temps,
    pub history: [History; 2],
    pub unit: Unit,
    pub screen_type: ScreenType,
    pub changed: bool,
    pub clear: bool,
}

/// The model as values: temperatures as sequences of two values, one per
/// probe, and each history as the values it holds, oldest first.
pub struct ModelView {
    pub last: Option<Seq<i16>>,
    pub mins: Seq<i16>,
    pub maxs: Seq<i16>,
    pub history: Seq<Seq<i16>>,
    pub unit: Unit,
    pub screen_type: ScreenType,
    pub changed: bool,
    pub clear: bool,
}

/// The two values of `t`.
pub open spec fn temps_view(t: Temps) -> Seq<i16> {
    seq![t[0].0, t[1].0]
}

impl View for Model {
    type V = ModelView;

    open spec fn view(&self) -> ModelView {
        ModelView {
            last: match self.last {
                Some(t) => Some(temps_view(t)),
                None => None,
            },
            mins: temps_view(self.mins),
            maxs: temps_view(self.maxs),
            history: seq![queue_items(self.history[0]), queue_items(self.history[1])],
            unit: self.unit,
            screen_type: self.screen_type,
            changed: self.changed,
            clear: self.clear,
        }
    }
}

/// The model before any change: nothing seen, minimums at the largest
/// value, maximums at the smallest, empty histories.
pub open spec fn initial_view() -> ModelView {
    ModelView {
        last: None,
        mins: seq![i16::MAX, i16::MAX],
        maxs: seq![i16::MIN, i16::MIN],
        history: seq![Seq::<i16>::empty(), Seq::<i16>::empty()],
        unit: Unit::Celsius,
        screen_type: ScreenType::Both,
        changed: false,
        clear: false,
    }
}

/// Per probe, the smaller of `m` and `v`.
pub open spec fn widen_min(m: Seq<i16>, v: Seq<i16>) -> Seq<i16> {
    Seq::new(2, |i: int| if v[i] < m[i] { v[i] } else { m[i] })
}

/// Per probe, the larger of `m` and `v`.
pub open spec fn widen_max(m: Seq<i16>, v: Seq<i16>) -> Seq<i16> {
    Seq::new(2, |i: int| if v[i] > m[i] { v[i] } else { m[i] })
}

/// `m` with its minimums and maximums widened to include `v`.
pub open spec fn widened(m: ModelView, v: Seq<i16>) -> ModelView {
    ModelView { mins: widen_min(m.mins, v), maxs: widen_max(m.maxs, v), ..m }
}

/// The minimums and maximums of `cur` are those of `m` widened to include
/// `v` for the probes below `i`, and those of `m` for the others.
spec fn widened_up_to(cur: ModelView, m: ModelView, v: Seq<i16>, i: int) -> bool {
    forall|j: int|
        0 <= j < 2 ==> (if j < i {
            cur.mins[j] == widen_min(m.mins, v)[j] && cur.maxs[j] == widen_max(m.maxs, v)[j]
        } else {
            cur.mins[j] == m.mins[j] && cur.maxs[j] == m.maxs[j]
        })
}

/// `m` with `v` as latest temperatures and its minimums and maximums widened
/// to include them.
pub open spec fn with_last(m: ModelView, v: Seq<i16>) -> ModelView {
    ModelView { last: Some(v), ..widened(m, v) }
}

/// The model after consuming change `c`:
/// - `Last(v)`: when `v` is the latest already, nothing changes and no redraw
///   is needed; otherwise `v` becomes the latest, widens the minimums and
///   maximums, and a redraw is needed;
/// - `LastAndAverage(v, a)`: as `Last`, and each probe's average joins the
///   end of its history, evicting the oldest point when full; a redraw is
///   needed;
/// - `Unit`, `ScreenType`: the choice is replaced; a redraw after a clear is
///   needed;
/// - `Clear`: a redraw after a clear is needed.
pub open spec fn step(m: ModelView, c: ModelChange) -> ModelView {
    match c {
        ModelChange::Last(v) => if m.last == Some(temps_view(v)) {
            ModelView { changed: false, clear: false, ..m }
        } else {
            ModelView { changed: true, clear: false, ..with_last(m, temps_view(v)) }
        },
        ModelChange::LastAndAverage(v, a) => ModelView {
            history: seq![
                bounded_push(m.history[0], HISTORY_CAPACITY as nat, a[0].0),
                bounded_push(m.history[1], HISTORY_CAPACITY as nat, a[1].0),
            ],
            changed: true,
            clear: false,
            ..with_last(m, temps_view(v))
        },
        ModelChange::Unit(u) => ModelView { unit: u, changed: true, clear: true, ..m },
        ModelChange::ScreenType(s) => ModelView {
            screen_type: s,
            changed: true,
            clear: true,
            ..m
        },
        ModelChange::Clear => ModelView { changed: true, clear: true, ..m },
    }
}

/// The model after consuming the changes `cs` in order, starting from `m`.
pub open spec fn run(m: ModelView, cs: Seq<ModelChange>) -> ModelView
    decreases cs.len(),
{
    if cs.len() == 0 {
        m
    } else {
        step(run(m, cs.drop_last()), cs.last())
    }
}

/// The temperatures that change `c` reports, if any.
pub open spec fn observed(c: ModelChange) -> Option<Seq<i16>> {
    match c {
        ModelChange::Last(v) => Some(temps_view(v)),
        ModelChange::LastAndAverage(v, _) => Some(temps_view(v)),
        _ => None,
    }
}

/// Each probe's value in `v` lies between the model's minimum and maximum.
pub open spec fn covers(m: ModelView, v: Seq<i16>) -> bool {
    &&& m.mins[0] <= v[0] <= m.maxs[0]
    &&& m.mins[1] <= v[1] <= m.maxs[1]
}

/// A model value that the reducer can reach: two minimums and maximums, and
/// latest temperatures, when there are some, within them.
pub open spec fn view_wf(m: ModelView) -> bool {
    &&& m.mins.len() == 2
    &&& m.maxs.len() == 2
    &&& m.last is Some ==> m.last->0.len() == 2 && covers(m, m.last->0)
}

/// The starting model is well formed.
pub proof fn lemma_initial_wf()
    ensures
        view_wf(initial_view()),
{
}

/// One change keeps the model well formed, never narrows the minimums and
/// maximums, and leaves the temperatures it reports between them.
pub proof fn lemma_step_widens(m: ModelView, c: ModelChange)
    requires
        view_wf(m),
    ensures
        view_wf(step(m, c)),
        step(m, c).mins[0] <= m.mins[0] && step(m, c).mins[1] <= m.mins[1],
        step(m, c).maxs[0] >= m.maxs[0] && step(m, c).maxs[1] >= m.maxs[1],
        observed(c) is Some ==> covers(step(m, c), observed(c)->0),
{
}

/// A latest-temperatures change asks for a redraw exactly when the
/// temperatures differ from the latest ones, and never for a clear.
pub proof fn lemma_last_changed(m: ModelView, v: Temps)
    ensures
        step(m, ModelChange::Last(v)).changed == (m.last != Some(temps_view(v))),
        !step(m, ModelChange::Last(v)).clear,
{
}

/// Over any sequence of changes, the minimums never rise and the maximums
/// never fall, and every temperature reported along the way lies between
/// the final minimum and maximum of its probe.
pub proof fn lemma_min_max_cover(m: ModelView, cs: Seq<ModelChange>)
    requires
        view_wf(m),
    ensures
        view_wf(run(m, cs)),
        run(m, cs).mins[0] <= m.mins[0] && run(m, cs).mins[1] <= m.mins[1],
        run(m, cs).maxs[0] >= m.maxs[0] && run(m, cs).maxs[1] >= m.maxs[1],
        forall|j: int|
            0 <= j < cs.len() && (#[trigger] observed(cs[j])) is Some ==> covers(
                run(m, cs),
                observed(cs[j])->0,
            ),
    decreases cs.len(),
{
    if cs.len() > 0 {
        let prev = cs.drop_last();
        lemma_min_max_cover(m, prev);
        let before = run(m, prev);
        lemma_step_widens(before, cs.last());
        assert forall|j: int|
            0 <= j < cs.len() && (#[trigger] observed(cs[j])) is Some implies covers(
                run(m, cs),
                observed(cs[j])->0,
            ) by {
            if j < cs.len() - 1 {
                assert(cs[j] == prev[j]);
            }
        }
    }
}

/// Appends `t` to history `q`, first evicting its oldest point when it is
/// full.
fn push_history(q: &mut History, t: Temp)
    ensures
        queue_items(*final(q)) == bounded_push(queue_items(*old(q)), HISTORY_CAPACITY as nat, t.0),
{
    if queue_len(q) == SCREEN_WIDTH {
        queue_dequeue(q);
    }
    let _ = queue_enqueue(q, t);
}

impl Default for Model {
    fn default() -> (r: Self)
        ensures
            r@ == initial_view(),
    {
        let r = Self {
            last: None,
            mins: [Temp(i16::MAX), Temp(i16::MAX)],
            maxs: [Temp(i16::MIN), Temp(i16::MIN)],
            history: [queue_new(), queue_new()],
            unit: Unit::Celsius,
            screen_type: ScreenType::Both,
            changed: false,
            clear: false,
        };
        assert(r@.mins =~= initial_view().mins);
        assert(r@.maxs =~= initial_view().maxs);
        assert(r@.history =~= initial_view().history);
        r
    }
}

impl Model {
    fn update_min_max(&mut self, temps: Temps)
        ensures
            final(self)@ == widened(old(self)@, temps_view(temps)),
    {
        let mut i: usize = 0;
        while i < 2
            invariant
                i <= 2,
                self.last == old(self).last,
                self.history == old(self).history,
                self.unit == old(self).unit,
                self.screen_type == old(self).screen_type,
                self.changed == old(self).changed,
                self.clear == old(self).clear,
                widened_up_to(self@, old(self)@, temps_view(temps), i as int),
            decreases 2 - i,
        {
            if temps[i].0 < self.mins[i].0 {
                self.mins[i] = temps[i];
            }
            if temps[i].0 > self.maxs[i].0 {
                self.maxs[i] = temps[i];
            }
            i += 1;
        }
        assert(self@.mins =~= widen_min(old(self)@.mins, temps_view(temps)));
        assert(self@.maxs =~= widen_max(old(self)@.maxs, temps_view(temps)));
        assert(self@.history =~= old(self)@.history);
    }

    /// Consumes one change: updates what is shown and sets `changed` and
    /// `clear` as `step` says.
    pub fn apply(&mut self, changes: ModelChange)
        ensures
            final(self)@ == step(old(self)@, changes),
    {
        match changes {
            ModelChange::Last(last) => {
                self.clear = false;
                let same = match self.last {
                    Some(prev) => prev[0].0 == last[0].0 && prev[1].0 == last[1].0,
                    None => false,
                };
                if !same {
                    self.changed = true;
                    self.last = Some(last);
                    self.update_min_max(last);
                } else {
                    self.changed = false;
                }
            },
            ModelChange::LastAndAverage(last, average) => {
                self.changed = true;
                self.clear = false;
                self.last = Some(last);
                self.update_min_max(last);
                push_history(&mut self.history[0], average[0]);
                push_history(&mut self.history[1], average[1]);
                assert(self@.history =~= step(old(self)@, changes).history);
            },
            ModelChange::Unit(unit) => {
                self.changed = true;
                self.clear = true;
                self.unit = unit;
            },
            ModelChange::ScreenType(screen_type) => {
                self.changed = true;
                self.clear = true;
                self.screen_type = screen_type;
            },
            ModelChange::Clear => {
                self.changed = true;
                self.clear = true;
            },
        }
    }

    /// The maximum (`max`) or minimum seen by probe `index`.
    pub fn min_or_max(&self, max: bool, index: usize) -> (r: Temp)
        requires
            index < 2,
        ensures
            r == if max {
                self.maxs[index as int]
            } else {
                self.mins[index as int]
            },
    {
        if max {
            self.maxs[index]
        } else {
            self.mins[index]
        }
    }
}

} // verus!
