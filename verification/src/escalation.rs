//! The retry-then-escalate policy, as mathematics.
//!
//! A record sits in one tier. Each failed attempt either leaves it there, one
//! failure richer, or moves it to the next tier with its counter back at
//! zero. The laws at the end say what follows for a store that keeps failing.

use crate::record::{RecordView, RETRY_LIMIT};
use crate::tier::{chain, Tier};
use vstd::prelude::*;

verus! {

/// A record together with the tier that currently holds it.
pub struct Placement {
    pub tier: Tier,
    pub record: RecordView,
}

/// The narrative `error` after the failures `details` have been appended to
/// it, each on a line of its own.
pub open spec fn narrative(error: Seq<char>, details: Seq<Seq<char>>) -> Seq<char>
    decreases details.len(),
{
    if details.len() == 0 {
        error
    } else {
        narrative(error, details.drop_last()) + seq!['\n'] + details.last()
    }
}

impl Placement {
    /// Where the record is after one more failed attempt. The terminal tier
    /// has no store that can fail: a record that is there stays as it is.
    pub open spec fn after_failure(self, detail: Seq<char>) -> Placement {
        match self.tier.successor() {
            Some(next) => Placement {
                tier: if self.record.exhausted() {
                    next
                } else {
                    self.tier
                },
                record: self.record.failed(detail),
            },
            None => self,
        }
    }

    /// Where the record is after every attempt on it has failed, with the
    /// details `details` in this order.
    pub open spec fn after_failures(self, details: Seq<Seq<char>>) -> Placement
        decreases details.len(),
    {
        if details.len() == 0 {
            self
        } else {
            self.after_failures(details.drop_last()).after_failure(details.last())
        }
    }

    /// The tiers that hold the record in the course of the failures
    /// `details`, each tier once, in the order in which the record comes to
    /// them.
    pub open spec fn visited(self, details: Seq<Seq<char>>) -> Seq<Tier>
        decreases details.len(),
    {
        if details.len() == 0 {
            seq![self.tier]
        } else {
            let before = self.after_failures(details.drop_last());
            let seen = self.visited(details.drop_last());
            if before.after_failure(details.last()).tier == before.tier {
                seen
            } else {
                seen.push(before.after_failure(details.last()).tier)
            }
        }
    }
}

/// The narrative is only added to: after any failures it begins with what
/// it was, and it has grown by a line for each of them.
pub proof fn lemma_narrative_only_grows(error: Seq<char>, details: Seq<Seq<char>>)
    ensures
        error.is_prefix_of(narrative(error, details)),
        narrative(error, details).len() >= error.len() + details.len(),
    decreases details.len(),
{
    if details.len() > 0 {
        lemma_narrative_only_grows(error, details.drop_last());
    }
}

/// A record leaves a tier at the failure that uses up the tier's attempts,
/// and at no earlier one. Until then each failure counts; when it leaves,
/// its counter is zero again. All along the failures are added to the
/// narrative, and the stream and the payload stay what they were.
pub proof fn lemma_escalates_at_the_limit(start: Placement, details: Seq<Seq<char>>)
    requires
        start.tier != Tier::Terminal,
        start.record.retries < RETRY_LIMIT,
        start.record.retries + details.len() <= RETRY_LIMIT,
    ensures
        start.record.retries + details.len() < RETRY_LIMIT ==> {
            &&& start.after_failures(details).tier == start.tier
            &&& start.after_failures(details).record.retries == start.record.retries
                + details.len()
        },
        start.record.retries + details.len() == RETRY_LIMIT ==> {
            &&& Some(start.after_failures(details).tier) == start.tier.successor()
            &&& start.after_failures(details).record.retries == 0
        },
        start.after_failures(details).record.error == narrative(start.record.error, details),
        start.after_failures(details).record.tag == start.record.tag,
        start.after_failures(details).record.data == start.record.data,
    decreases details.len(),
{
    if details.len() > 0 {
        lemma_escalates_at_the_limit(start, details.drop_last());
    }
}

/// Failures can be taken in two runs: the record ends where the second run
/// takes it from the end of the first.
pub proof fn lemma_failures_in_two_runs(
    start: Placement,
    first: Seq<Seq<char>>,
    second: Seq<Seq<char>>,
)
    ensures
        start.after_failures(first + second) == start.after_failures(first).after_failures(
            second,
        ),
        narrative(start.record.error, first + second) == narrative(
            narrative(start.record.error, first),
            second,
        ),
    decreases second.len(),
{
    if second.len() == 0 {
        assert(first + second =~= first);
    } else {
        assert((first + second).drop_last() =~= first + second.drop_last());
        assert((first + second).last() == second.last());
        lemma_failures_in_two_runs(start, first, second.drop_last());
    }
}

/// A record that enters the primary tier and meets nothing but failure is
/// in the terminal tier after twice the limit of failures: five in the
/// primary tier, five in the secondary tier. It carries all of them in its
/// narrative, and its counter is zero.
pub proof fn lemma_all_stores_failing(record: RecordView, details: Seq<Seq<char>>)
    requires
        record.retries == 0,
        details.len() == 2 * RETRY_LIMIT,
    ensures
        (Placement { tier: Tier::Primary, record }).after_failures(details).tier
            == Tier::Terminal,
        (Placement { tier: Tier::Primary, record }).after_failures(details).record == (
        RecordView {
            tag: record.tag,
            error: narrative(record.error, details),
            data: record.data,
            retries: 0,
        }),
{
    let start = Placement { tier: Tier::Primary, record };
    let first = details.subrange(0, RETRY_LIMIT as int);
    let second = details.subrange(RETRY_LIMIT as int, details.len() as int);
    assert(details =~= first + second);
    lemma_failures_in_two_runs(start, first, second);
    lemma_escalates_at_the_limit(start, first);
    lemma_escalates_at_the_limit(start.after_failures(first), second);
}

/// No failure moves a record back, and none moves it past a tier: after any
/// failures the record is in the tier where it was or in a later one, and the
/// tiers that have held it are the stretch of the chain between the two, each
/// once and in the chain's order.
pub proof fn lemma_tiers_in_order(start: Placement, details: Seq<Seq<char>>)
    ensures
        start.tier.rank() <= start.after_failures(details).tier.rank(),
        start.visited(details) == chain().subrange(
            start.tier.rank(),
            start.after_failures(details).tier.rank() + 1,
        ),
    decreases details.len(),
{
    if details.len() == 0 {
        assert(seq![start.tier] =~= chain().subrange(
            start.tier.rank(),
            start.tier.rank() + 1,
        ));
    } else {
        lemma_tiers_in_order(start, details.drop_last());
        let before = start.after_failures(details.drop_last());
        let after = before.after_failure(details.last());
        let seen = start.visited(details.drop_last());
        if after.tier != before.tier {
            assert(after.tier.rank() == before.tier.rank() + 1);
            assert(seen.push(after.tier) =~= chain().subrange(
                start.tier.rank(),
                after.tier.rank() + 1,
            ));
        }
    }
}

/// A record that starts in the primary tier has been in a beginning of the
/// chain, whatever has failed since: in the primary tier alone, in the
/// primary and the secondary tier, or in all three.
pub proof fn lemma_visits_a_prefix_of_the_chain(record: RecordView, details: Seq<Seq<char>>)
    ensures
        (Placement { tier: Tier::Primary, record }).visited(details).is_prefix_of(chain()),
{
    let start = Placement { tier: Tier::Primary, record };
    lemma_tiers_in_order(start, details);
}

/// The terminal tier is the end: whatever is said to fail afterwards, a
/// record that is there stays there, unchanged.
pub proof fn lemma_terminal_is_final(record: RecordView, details: Seq<Seq<char>>)
    ensures
        (Placement { tier: Tier::Terminal, record }).after_failures(details) == (Placement {
            tier: Tier::Terminal,
            record,
        }),
    decreases details.len(),
{
    if details.len() > 0 {
        lemma_terminal_is_final(record, details.drop_last());
    }
}

} // verus!
