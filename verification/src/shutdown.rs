//! The plan by which the workers are brought to an end.

use crate::tier::Tier;
use vstd::prelude::*;

verus! {

/// How many seconds a worker is given to leave its loop before it is
/// cancelled.
pub const GRACE_PERIOD_SECS: u64 = 5;

/// The order to wait for one worker, for `grace_secs` seconds at most.
#[derive(Debug, Clone, Copy, PartialEq, Eq, Structural)]
pub struct Join {
    pub worker: Tier,
    pub grace_secs: u64,
}

/// How a worker has come to its end.
#[derive(Debug, Clone, Copy, PartialEq, Eq, Structural)]
pub enum Termination {
    /// It has left its loop within the grace period.
    Graceful,
    /// It has not, and is cancelled: what it held is lost.
    Forced,
}

/// The joins of a running pipeline: its three workers in the order of the
/// chain, each with the same grace period.
pub open spec fn joins_of_all() -> Seq<Join> {
    seq![
        Join { worker: Tier::Primary, grace_secs: GRACE_PERIOD_SECS },
        Join { worker: Tier::Secondary, grace_secs: GRACE_PERIOD_SECS },
        Join { worker: Tier::Terminal, grace_secs: GRACE_PERIOD_SECS },
    ]
}

/// The seconds that pass at most while the joins of `plan` are carried out
/// one after the other.
pub open spec fn longest_wait(plan: Seq<Join>) -> nat
    decreases plan.len(),
{
    if plan.len() == 0 {
        0
    } else {
        longest_wait(plan.drop_last()) + plan.last().grace_secs as nat
    }
}

/// Whether a worker that was waited for has ended in time or has to be
/// cancelled.
pub fn termination(finished_in_time: bool) -> (end: Termination)
    ensures
        end == if finished_in_time {
            Termination::Graceful
        } else {
            Termination::Forced
        },
{
    if finished_in_time {
        Termination::Graceful
    } else {
        Termination::Forced
    }
}

/// Waiting for all three workers takes three grace periods at most, whether
/// they end in time or are cancelled.
pub proof fn lemma_wait_is_bounded()
    ensures
        longest_wait(joins_of_all()) == 3 * GRACE_PERIOD_SECS,
        longest_wait(Seq::<Join>::empty()) == 0,
{
    let plan = joins_of_all();
    reveal_with_fuel(longest_wait, 4);
    assert(plan.drop_last() =~= seq![plan[0], plan[1]]);
    assert(plan.drop_last().drop_last() =~= seq![plan[0]]);
    assert(plan.drop_last().drop_last().drop_last() =~= Seq::<Join>::empty());
}

} // verus!
