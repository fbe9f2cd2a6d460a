//! The per-second sampling step: turns the latest temperatures into the
//! changes that the display model consumes, averaging them over a period.

use vstd::prelude::*;
use crate::screen::ModelChange;
use crate::temp::{trunc_div, Temp, Temps};

verus! {

/// Seconds over which temperatures are averaged into one history point.
pub const PERIOD: usize = 2;

/// State of the sampling step: the seconds elapsed, and the temperatures of
/// the current period, the one of second `s` at position `s % P`.
pub struct Sampler<const P: usize> {
    pub seconds: usize,
    pub latest_period: [Temps; P],
}

/// Sum of probe `k`'s values in `s`.
pub open spec fn probe_sum(s: Seq<Temps>, k: int) -> int
    decreases s.len(),
{
    if s.len() == 0 {
        0
    } else {
        probe_sum(s.drop_last(), k) + s.last()[k].0
    }
}

/// Mean of probe `k`'s values in `s`, rounded toward zero.
pub open spec fn probe_mean(s: Seq<Temps>, k: int) -> int {
    trunc_div(probe_sum(s, k), s.len() as int)
}

/// The change reported at second `seconds` once `temps` is stored in
/// `latest`: the averages of the period with the temperatures when the
/// second closes a period, the temperatures alone otherwise.
pub open spec fn period_change(seconds: usize, p: usize, temps: Temps, latest: Seq<Temps>) -> ModelChange {
    if seconds % p == p - 1 {
        ModelChange::LastAndAverage(
            temps,
            [Temp(probe_mean(latest, 0) as i16), Temp(probe_mean(latest, 1) as i16)],
        )
    } else {
        ModelChange::Last(temps)
    }
}

/// The changes reported at second `seconds`: a clear first at second zero,
/// then `change`.
pub open spec fn tick_changes(seconds: usize, change: ModelChange) -> Seq<ModelChange> {
    if seconds == 0 {
        seq![ModelChange::Clear, change]
    } else {
        seq![change]
    }
}

/// Mean of probe `k` over the temperatures of one period.
fn period_mean<const P: usize>(latest: &[Temps; P], k: usize) -> (r: i16)
    requires
        P > 0,
        k < 2,
    ensures
        r == probe_mean(latest@, k as int),
{
    let mut sum: i128 = 0;
    let mut i: usize = 0;
    while i < P
        invariant
            P > 0,
            k < 2,
            i <= P,
            sum == probe_sum(latest@.subrange(0, i as int), k as int),
            -32768 * i <= sum <= 32767 * i,
        decreases P - i,
    {
        assert(latest@.subrange(0, i + 1).drop_last() =~= latest@.subrange(0, i as int));
        sum = sum + latest[i][k].0 as i128;
        i += 1;
    }
    assert(latest@.subrange(0, P as int) =~= latest@);
    let n = P as i128;
    let q: i128 = if sum >= 0 {
        assert(sum / n <= 32767) by (nonlinear_arith)
            requires
                0 <= sum <= 32767 * n,
                n > 0,
        ;
        sum / n
    } else {
        let ghost neg: int = -(sum as int);
        assert(neg / (n as int) <= 32768) by (nonlinear_arith)
            requires
                0 < neg <= 32768 * n,
                n > 0,
        ;
        -((-sum) / n)
    };
    q as i16
}

impl<const P: usize> Sampler<P> {
    /// A sampler at second zero with an all-zero period.
    pub fn new() -> (r: Self)
        requires
            P > 0,
        ensures
            r.seconds == 0,
            forall|i: int| 0 <= i < P ==> #[trigger] r.latest_period[i] == [Temp(0), Temp(0)],
    {
        Sampler { seconds: 0, latest_period: [[Temp(0), Temp(0)]; P] }
    }

    /// One second's step with the temperatures `temps` just read: stores
    /// them in the period, advances the seconds (wrapping at the largest
    /// value) and returns the changes for the display model, in order.
    pub fn every_second(&mut self, temps: Temps) -> (r: Vec<ModelChange>)
        requires
            P > 0,
        ensures
            final(self).latest_period@ == old(self).latest_period@.update(
                (old(self).seconds % P) as int,
                temps,
            ),
            final(self).seconds == if old(self).seconds == usize::MAX {
                0
            } else {
                old(self).seconds + 1
            },
            r@ == tick_changes(
                old(self).seconds,
                period_change(old(self).seconds, P, temps, final(self).latest_period@),
            ),
    {
        let current = self.seconds;
        let mut out: Vec<ModelChange> = Vec::new();
        if current == 0 {
            out.push(ModelChange::Clear);
        }
        self.latest_period[current % P] = temps;
        let change = if current % P == P - 1 {
            let average = [Temp(period_mean(&self.latest_period, 0)), Temp(period_mean(&self.latest_period, 1))];
            ModelChange::LastAndAverage(temps, average)
        } else {
            ModelChange::Last(temps)
        };
        out.push(change);
        self.seconds = if current < usize::MAX {
            current + 1
        } else {
            0
        };
        assert(out@ =~= tick_changes(current, period_change(current, P, temps, self.latest_period@)));
        out
    }
}

} // verus!
