//! The sample ring of the `e_ring` crate, seen as the sequence of values it
//! holds, oldest first.

use vstd::prelude::*;

verus! {

/// How many samples one ring keeps.
pub const RING_CAPACITY: usize = 128;

/// A ring of samples: once full, each append evicts the oldest sample.
pub type SampleRing = e_ring::Ring<i16, 128>;

/// Declares `e_ring::Ring` to Verus as an opaque type; what a ring holds is
/// `ring_items`.
#[verifier::external_type_specification]
#[verifier::external_body]
#[verifier::reject_recursive_types(T)]
pub struct ExRing<T, const N: usize>(e_ring::Ring<T, N>);

/// The samples a ring holds, oldest first.
pub uninterp spec fn ring_items(r: e_ring::Ring<i16, 128>) -> Seq<i16>;

/// `s` after appending `v` to a buffer of capacity `cap` that holds `s`:
/// when full, the oldest value is evicted first.
pub open spec fn bounded_push(s: Seq<i16>, cap: nat, v: i16) -> Seq<i16> {
    if s.len() < cap {
        s.push(v)
    } else {
        s.drop_first().push(v)
    }
}

/// Contents of a ring that held `start` after appending `vals` in order.
pub open spec fn ring_fill(start: Seq<i16>, vals: Seq<i16>) -> Seq<i16>
    decreases vals.len(),
{
    if vals.len() == 0 {
        start
    } else {
        bounded_push(ring_fill(start, vals.drop_last()), RING_CAPACITY as nat, vals.last())
    }
}

/// Whatever values are appended to a ring, it never holds more than its
/// capacity, and it holds the most recent values in insertion order: after
/// more appends than its capacity, exactly the last `RING_CAPACITY` of them.
pub proof fn lemma_ring_keeps_latest(start: Seq<i16>, vals: Seq<i16>)
    requires
        start.len() <= RING_CAPACITY,
    ensures
        ring_fill(start, vals).len() <= RING_CAPACITY,
        ({
            let all = start + vals;
            ring_fill(start, vals) == if all.len() <= RING_CAPACITY {
                all
            } else {
                all.subrange(all.len() - RING_CAPACITY, all.len() as int)
            }
        }),
    decreases vals.len(),
{
    if vals.len() > 0 {
        let prev = vals.drop_last();
        lemma_ring_keeps_latest(start, prev);
        let all = start + vals;
        let before = start + prev;
        assert(before == all.drop_last());
        let n = all.len() as int;
        if before.len() < RING_CAPACITY {
            assert(ring_fill(start, vals) =~= all);
        } else if before.len() == RING_CAPACITY {
            assert(ring_fill(start, vals) =~= all.subrange(n - RING_CAPACITY, n));
        } else {
            assert(ring_fill(start, vals) =~= all.subrange(n - RING_CAPACITY, n));
        }
    }
}

/// Relies on `e_ring::Ring::new`: a ring starts empty.
#[verifier::external_body]
pub(crate) fn ring_new() -> (r: SampleRing)
    ensures
        ring_items(r) == Seq::<i16>::empty(),
{
    e_ring::Ring::new()
}

/// Relies on `e_ring::Ring::append`: writes at the next slot and evicts the
/// oldest value once the ring holds `RING_CAPACITY` of them.
#[verifier::external_body]
pub(crate) fn ring_append(r: &mut SampleRing, v: i16)
    ensures
        ring_items(*final(r)) == bounded_push(ring_items(*old(r)), RING_CAPACITY as nat, v),
{
    r.append(v)
}

/// Relies on `e_ring::Ring::iter`: yields the values held, oldest first.
#[verifier::external_body]
pub(crate) fn ring_values(r: &SampleRing) -> (v: Vec<i16>)
    ensures
        v@ == ring_items(*r),
{
    r.iter().collect()
}

} // verus!
