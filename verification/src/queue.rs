//! The queue that holds the records of one tier.
//!
//! The queue itself is `crossbeam_queue::SegQueue`. Verus does not see inside
//! it: everything this module says of it is taken on trust from that crate's
//! documentation and source. Whatever changes the queue here takes it by
//! `&mut`, so no other thread can touch it during a call, and the queue's
//! contents are then a sequence: `push` adds at the tail, `pop` takes from
//! the head.

use crate::record::{PisAllerRecord, RecordView};
use crossbeam_queue::SegQueue;
use vstd::prelude::*;

verus! {

/// `crossbeam_queue::SegQueue`, of which Verus sees the name and no more.
#[verifier::external_type_specification]
#[verifier::external_body]
#[verifier::reject_recursive_types(T)]
pub struct ExSegQueue<T>(SegQueue<T>);

/// The records that a `SegQueue` holds, the oldest first.
pub uninterp spec fn queued(queue: SegQueue<PisAllerRecord>) -> Seq<RecordView>;

/// `SegQueue::new`: a queue that holds nothing.
#[verifier::external_body]
pub(crate) fn new_queue() -> (queue: SegQueue<PisAllerRecord>)
    ensures
        queued(queue) == Seq::<RecordView>::empty(),
{
    SegQueue::new()
}

/// `SegQueue::push`: the record becomes the last of the queue, and the
/// records before it stay as they were.
#[verifier::external_body]
pub(crate) fn push(queue: &mut SegQueue<PisAllerRecord>, record: PisAllerRecord)
    ensures
        queued(*final(queue)) == queued(*old(queue)).push(record@),
{
    queue.push(record)
}

/// `SegQueue::pop`: `None` from an empty queue, which stays empty; else the
/// head of the queue, which leaves it.
#[verifier::external_body]
pub(crate) fn pop(queue: &mut SegQueue<PisAllerRecord>) -> (head: Option<PisAllerRecord>)
    ensures
        match head {
            Some(record) => queued(*old(queue)).len() > 0 && record@ == queued(*old(queue))[0]
                && queued(*final(queue)) == queued(*old(queue)).drop_first(),
            None => queued(*old(queue)).len() == 0 && queued(*final(queue)) == queued(
                *old(queue),
            ),
        },
{
    queue.pop()
}

/// `SegQueue::len`: the number of records in the queue.
#[verifier::external_body]
pub(crate) fn len(queue: &SegQueue<PisAllerRecord>) -> (count: usize)
    ensures
        count == queued(*queue).len(),
{
    queue.len()
}

} // verus!
