//! Multi-resolution sample series: a base tier that receives every sample,
//! and coarser tiers that periodically receive the mean of a window of a
//! finer one.

use vstd::prelude::*;
use crate::modes::{scale_tier, Scale};
use crate::ring::{bounded_push, ring_append, ring_items, ring_new, ring_values, SampleRing, RING_CAPACITY};
use crate::temp::trunc_div;

verus! {

/// Sum of the values of `s`.
pub open spec fn seq_sum(s: Seq<i16>) -> int
    decreases s.len(),
{
    if s.len() == 0 {
        0
    } else {
        seq_sum(s.drop_last()) + s.last()
    }
}

/// The last `n` values of `s`, or all of them when it holds fewer.
pub open spec fn latest(s: Seq<i16>, n: nat) -> Seq<i16> {
    if s.len() <= n {
        s
    } else {
        s.subrange(s.len() - n, s.len() as int)
    }
}

/// The mean of the last `window` values of `s`, rounded toward zero. While
/// `s` holds fewer values, their sum is still divided by `window`, so that
/// early means are weighted as if the missing values were zero.
pub open spec fn window_mean(s: Seq<i16>, window: nat) -> int {
    trunc_div(seq_sum(latest(s, window)), window as int)
}

/// The mean of the last `window` values of `values` (see `window_mean`).
pub fn mean_of_latest(values: &Vec<i16>, window: u32) -> (r: i16)
    requires
        window > 0,
    ensures
        r == window_mean(values@, window as nat),
{
    let len = values.len();
    let w = window as usize;
    let start: usize = if len > w {
        len - w
    } else {
        0
    };
    let mut sum: i64 = 0;
    let mut i: usize = start;
    while i < len
        invariant
            start <= i <= len,
            len == values@.len(),
            len - start <= window,
            sum == seq_sum(values@.subrange(start as int, i as int)),
            -32768 * (i - start) <= sum <= 32767 * (i - start),
        decreases len - i,
    {
        assert(values@.subrange(start as int, i + 1).drop_last() =~= values@.subrange(
            start as int,
            i as int,
        ));
        sum = sum + values[i] as i64;
        i += 1;
    }
    assert(values@.subrange(start as int, len as int) =~= latest(values@, window as nat));
    let n = len - start;
    let wi = window as i64;
    let q: i64 = if sum >= 0 {
        assert(sum / wi <= 32767) by (nonlinear_arith)
            requires
                0 <= sum <= 32767 * n,
                n <= wi,
                wi > 0,
        ;
        sum / wi
    } else {
        let ghost neg: int = -(sum as int);
        assert(neg / (wi as int) <= 32768) by (nonlinear_arith)
            requires
                0 < neg <= 32768 * n,
                n <= wi,
                wi > 0,
        ;
        -((-sum) / wi)
    };
    q as i16
}

/// When and from where a coarser tier receives a mean: at every second
/// that is a multiple of `every`, the mean of the last `window` values of
/// tier `source`.
#[derive(Copy, Clone, Debug, PartialEq, Eq, Structural)]
pub struct TierRule {
    pub every: u32,
    pub source: usize,
    pub window: u32,
}

/// A rule that can be followed: a positive period and window, and a source
/// tier that exists.
pub open spec fn rule_wf(r: TierRule) -> bool {
    r.every > 0 && r.window > 0 && r.source < 3
}

/// Three tiers of sample rings, finest first.
pub struct Tiers {
    pub rings: [SampleRing; 3],
}

impl View for Tiers {
    type V = Seq<Seq<i16>>;

    open spec fn view(&self) -> Seq<Seq<i16>> {
        seq![ring_items(self.rings[0]), ring_items(self.rings[1]), ring_items(self.rings[2])]
    }
}

/// Tiers `t` after appending `v` to tier `tier`.
pub open spec fn tiers_push(t: Seq<Seq<i16>>, tier: int, v: i16) -> Seq<Seq<i16>> {
    t.update(tier, bounded_push(t[tier], RING_CAPACITY as nat, v))
}

/// Tiers `t` after rule `r` fills tier `target` at second `seconds`.
pub open spec fn follow_rule(t: Seq<Seq<i16>>, target: int, r: TierRule, seconds: u32) -> Seq<
    Seq<i16>,
> {
    if seconds % r.every == 0 {
        tiers_push(t, target, window_mean(t[r.source as int], r.window as nat) as i16)
    } else {
        t
    }
}

/// Tiers `t` after storing sample `value` at second `seconds`: the sample
/// joins the base tier, then tier 1 follows `rules[0]` and tier 2 follows
/// `rules[1]`, in that order.
pub open spec fn stored(t: Seq<Seq<i16>>, value: i16, seconds: u32, rules: [TierRule; 2]) -> Seq<
    Seq<i16>,
> {
    follow_rule(follow_rule(tiers_push(t, 0, value), 1, rules[0], seconds), 2, rules[1], seconds)
}

/// The sum of `s` is within the bounds of its length times a sample.
proof fn lemma_sum_bounds(s: Seq<i16>)
    ensures
        -32768 * s.len() <= seq_sum(s) <= 32767 * s.len(),
    decreases s.len(),
{
    if s.len() > 0 {
        lemma_sum_bounds(s.drop_last());
    }
}

/// The mean of any window of samples is itself a possible sample.
pub proof fn lemma_window_mean_in_range(s: Seq<i16>, window: nat)
    requires
        window > 0,
    ensures
        i16::MIN <= window_mean(s, window) <= i16::MAX,
{
    let l = latest(s, window);
    lemma_sum_bounds(l);
    let n = l.len() as int;
    let w = window as int;
    let sum = seq_sum(l);
    assert(n <= w);
    if sum >= 0 {
        assert(sum / w <= 32767) by (nonlinear_arith)
            requires
                0 <= sum <= 32767 * n,
                n <= w,
                w > 0,
        ;
    } else {
        assert((-sum) / w <= 32768) by (nonlinear_arith)
            requires
                0 < -sum <= 32768 * n,
                n <= w,
                w > 0,
        ;
    }
}

/// Storing a sample appends it to the base tier; a coarser tier whose
/// period divides the second gains, as its newest value, the mean rounded
/// toward zero of the most recent `window` values of its source tier (taken
/// after the sample joined the base tier and tier 1 was filled), and a tier
/// whose period does not divide the second is left as it was.
pub proof fn lemma_store_appends_mean(t: Seq<Seq<i16>>, value: i16, seconds: u32, rules: [TierRule; 2])
    requires
        t.len() == 3,
        rule_wf(rules[0]),
        rule_wf(rules[1]),
    ensures
        ({
            let base = tiers_push(t, 0, value);
            let one = follow_rule(base, 1, rules[0], seconds);
            let all = stored(t, value, seconds, rules);
            &&& all.len() == 3
            &&& all[0] == bounded_push(t[0], RING_CAPACITY as nat, value)
            &&& seconds % rules[0].every == 0 ==> all[1].last() == window_mean(
                base[rules[0].source as int],
                rules[0].window as nat,
            )
            &&& seconds % rules[0].every != 0 ==> all[1] == t[1]
            &&& seconds % rules[1].every == 0 ==> all[2].last() == window_mean(
                one[rules[1].source as int],
                rules[1].window as nat,
            )
            &&& seconds % rules[1].every != 0 ==> all[2] == t[2]
        }),
{
    let base = tiers_push(t, 0, value);
    let one = follow_rule(base, 1, rules[0], seconds);
    lemma_window_mean_in_range(base[rules[0].source as int], rules[0].window as nat);
    lemma_window_mean_in_range(one[rules[1].source as int], rules[1].window as nat);
}

/// Seconds in a minute.
pub const MINUTE: u32 = 60;

/// Seconds in an hour.
pub const HOUR: u32 = 3600;

/// The rules of a per-second series with ten-second and one-minute tiers,
/// both averaged from the per-second tier.
pub open spec fn temperature_rules() -> [TierRule; 2] {
    [
        TierRule { every: 10, source: 0, window: 10 },
        TierRule { every: 60, source: 0, window: 60 },
    ]
}

/// The rules of a per-second series with per-minute and per-hour tiers:
/// each minute the mean of the last 60 seconds, each hour the mean of the
/// last 60 minutes.
pub open spec fn reading_rules() -> [TierRule; 2] {
    [
        TierRule { every: MINUTE, source: 0, window: 60 },
        TierRule { every: HOUR, source: 1, window: 60 },
    ]
}

impl Tiers {
    /// Three empty tiers.
    pub fn new() -> (r: Self)
        ensures
            r@ == seq![Seq::<i16>::empty(), Seq::<i16>::empty(), Seq::<i16>::empty()],
    {
        let r = Tiers { rings: [ring_new(), ring_new(), ring_new()] };
        assert(r@ =~= seq![Seq::<i16>::empty(), Seq::<i16>::empty(), Seq::<i16>::empty()]);
        r
    }

    /// Appends `v` to tier `tier`, evicting its oldest value when full.
    pub fn append(&mut self, tier: usize, v: i16)
        requires
            tier < 3,
        ensures
            final(self)@ == tiers_push(old(self)@, tier as int, v),
    {
        ring_append(&mut self.rings[tier], v);
        assert(self@ =~= tiers_push(old(self)@, tier as int, v));
    }

    /// The values of tier `tier`, oldest first.
    pub fn values(&self, tier: usize) -> (r: Vec<i16>)
        requires
            tier < 3,
        ensures
            r@ == self@[tier as int],
    {
        ring_values(&self.rings[tier])
    }

    /// The ring of tier `tier`.
    pub fn ring(&self, tier: usize) -> (r: &SampleRing)
        requires
            tier < 3,
        ensures
            ring_items(*r) == self@[tier as int],
    {
        &self.rings[tier]
    }

    /// The most recent value of tier `tier`, if any.
    pub fn last(&self, tier: usize) -> (r: Option<i16>)
        requires
            tier < 3,
        ensures
            r == if self@[tier as int].len() == 0 {
                None::<i16>
            } else {
                Some(self@[tier as int].last())
            },
    {
        let values = ring_values(&self.rings[tier]);
        let n = values.len();
        if n == 0 {
            None
        } else {
            Some(values[n - 1])
        }
    }

    /// Appends to tier `to` the mean of the last `window` values of tier
    /// `from` (see `window_mean`).
    pub fn average_into(&mut self, from: usize, to: usize, window: u32)
        requires
            from < 3,
            to < 3,
            window > 0,
        ensures
            final(self)@ == tiers_push(old(self)@, to as int, window_mean(old(self)@[from as int], window as nat) as i16),
    {
        let values = ring_values(&self.rings[from]);
        let mean = mean_of_latest(&values, window);
        self.append(to, mean);
    }

    /// Stores sample `value` taken at second `seconds`: appends it to the base
    /// tier, then, for tiers 1 and 2 in turn, appends the mean that their rule
    /// asks for when `seconds` is a multiple of the rule's period.
    pub fn store(&mut self, value: i16, seconds: u32, rules: [TierRule; 2])
        requires
            rule_wf(rules[0]),
            rule_wf(rules[1]),
        ensures
            final(self)@ == stored(old(self)@, value, seconds, rules),
    {
        self.append(0, value);
        let mut i: usize = 0;
        while i < 2
            invariant
                i <= 2,
                rule_wf(rules[0]),
                rule_wf(rules[1]),
                self@ == if i == 0 {
                    tiers_push(old(self)@, 0, value)
                } else if i == 1 {
                    follow_rule(tiers_push(old(self)@, 0, value), 1, rules[0], seconds)
                } else {
                    stored(old(self)@, value, seconds, rules)
                },
            decreases 2 - i,
        {
            let rule = rules[i];
            if seconds % rule.every == 0 {
                self.average_into(rule.source, i + 1, rule.window);
            }
            i += 1;
        }
    }

    /// Stores a sensor reading taken at second `seconds`, with per-minute and
    /// per-hour tiers (see `reading_rules`).
    pub fn store_reading(&mut self, value: i16, seconds: u32)
        ensures
            final(self)@ == stored(old(self)@, value, seconds, reading_rules()),
    {
        let rules = [
            TierRule { every: MINUTE, source: 0, window: 60 },
            TierRule { every: HOUR, source: 1, window: 60 },
        ];
        assert(rules =~= reading_rules());
        self.store(value, seconds, rules);
    }
}

/// Per-second temperature series of two probes, each with ten-second and
/// one-minute tiers.
pub struct TempsValues([Tiers; 2]);

impl View for TempsValues {
    type V = Seq<Seq<Seq<i16>>>;

    closed spec fn view(&self) -> Seq<Seq<Seq<i16>>> {
        seq![self.0[0]@, self.0[1]@]
    }
}

impl Default for TempsValues {
    fn default() -> (r: Self)
        ensures
            r@.len() == 2,
            r@[0] == seq![Seq::<i16>::empty(), Seq::<i16>::empty(), Seq::<i16>::empty()],
            r@[1] == seq![Seq::<i16>::empty(), Seq::<i16>::empty(), Seq::<i16>::empty()],
    {
        TempsValues([Tiers::new(), Tiers::new()])
    }
}

impl TempsValues {
    /// The series of probe `t` at scale `scale`.
    pub fn series(&self, t: usize, scale: Scale) -> (r: &SampleRing)
        requires
            t < 2,
        ensures
            ring_items(*r) == self@[t as int][scale_tier(scale) as int],
    {
        self.0[t].ring(scale.tier())
    }

    /// The latest temperature of probe `t`, if any.
    pub fn last(&self, t: usize) -> (r: Option<i16>)
        requires
            t < 2,
        ensures
            r == if self@[t as int][0].len() == 0 {
                None::<i16>
            } else {
                Some(self@[t as int][0].last())
            },
    {
        self.0[t].last(0)
    }

    /// Stores temperature `value` of probe `t` taken at second `seconds`
    /// (see `temperature_rules`).
    pub fn store(&mut self, value: i16, seconds: u32, t: usize)
        requires
            t < 2,
        ensures
            final(self)@ == old(self)@.update(
                t as int,
                stored(old(self)@[t as int], value, seconds, temperature_rules()),
            ),
    {
        let ten = Scale::TenSeconds.seconds();
        let minute = Scale::Minute.seconds();
        let rules = [
            TierRule { every: ten, source: 0, window: ten },
            TierRule { every: minute, source: 0, window: minute },
        ];
        assert(rules =~= temperature_rules());
        self.0[t].store(value, seconds, rules);
        assert(self@ =~= old(self)@.update(
            t as int,
            stored(old(self)@[t as int], value, seconds, temperature_rules()),
        ));
    }
}

} // verus!
