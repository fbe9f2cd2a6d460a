//! The single-producer single-consumer queue of the `heapless` crate, used as
//! a bounded history of temperatures and seen as the sequence of values it
//! holds, front first.

use vstd::prelude::*;
use crate::temp::Temp;

verus! {

/// How many points a history keeps.
pub const HISTORY_CAPACITY: usize = 128;

/// A history of temperatures; its fixed capacity is one less than its
/// storage, `HISTORY_CAPACITY`.
pub type History = heapless::spsc::Queue<Temp, 129>;

/// Declares `heapless::spsc::Queue` to Verus as an opaque type; what a
/// history holds is `queue_items`.
#[verifier::external_type_specification]
#[verifier::external_body]
#[verifier::reject_recursive_types(T)]
pub struct ExQueue<T, const N: usize>(heapless::spsc::Queue<T, N>);

/// The values of the temperatures a history holds, front (oldest) first.
pub uninterp spec fn queue_items(q: heapless::spsc::Queue<Temp, 129>) -> Seq<i16>;

/// Relies on `heapless::spsc::Queue::new`: a queue starts empty.
#[verifier::external_body]
pub(crate) fn queue_new() -> (q: History)
    ensures
        queue_items(q) == Seq::<i16>::empty(),
{
    heapless::spsc::Queue::new()
}

/// Relies on `heapless::spsc::Queue::len`: the number of items held, below
/// the storage size of 129.
#[verifier::external_body]
pub(crate) fn queue_len(q: &History) -> (n: usize)
    ensures
        n == queue_items(*q).len(),
        n <= HISTORY_CAPACITY,
{
    q.len()
}

/// Relies on `heapless::spsc::Queue::enqueue`: adds at the back unless the
/// queue already holds `HISTORY_CAPACITY` items, and hands the item back
/// otherwise.
#[verifier::external_body]
pub(crate) fn queue_enqueue(q: &mut History, t: Temp) -> (r: Result<(), Temp>)
    ensures
        queue_items(*old(q)).len() < HISTORY_CAPACITY ==> r is Ok && queue_items(*final(q))
            == queue_items(*old(q)).push(t.0),
        queue_items(*old(q)).len() >= HISTORY_CAPACITY ==> r is Err && queue_items(*final(q))
            == queue_items(*old(q)),
{
    q.enqueue(t)
}

/// Relies on `heapless::spsc::Queue::dequeue`: removes and returns the front
/// item, or `None` when the queue is empty.
#[verifier::external_body]
pub(crate) fn queue_dequeue(q: &mut History) -> (r: Option<Temp>)
    ensures
        queue_items(*old(q)).len() == 0 ==> r is None && queue_items(*final(q)) == queue_items(
            *old(q),
        ),
        queue_items(*old(q)).len() > 0 ==> r == Some(Temp(queue_items(*old(q))[0]))
            && queue_items(*final(q)) == queue_items(*old(q)).drop_first(),
{
    q.dequeue()
}

/// Relies on `heapless::spsc::Queue::iter`: yields the items front to back.
#[verifier::external_body]
pub(crate) fn queue_values(q: &History) -> (v: Vec<i16>)
    ensures
        v@ == queue_items(*q),
        v@.len() <= HISTORY_CAPACITY,
{
    q.iter().map(|t| t.0).collect()
}

} // verus!
