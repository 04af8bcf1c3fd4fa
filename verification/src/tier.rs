//! The stages of the escalation chain.

use vstd::prelude::*;

verus! {

/// One stage of the chain, each backed by a store of its own: the database,
/// the filesystem, the operator's console.
#[derive(Debug, Clone, Copy, PartialEq, Eq, Structural)]
pub enum Tier {
    Primary,
    Secondary,
    Terminal,
}

impl Tier {
    /// The place of the tier in the chain, from zero.
    pub open spec fn rank(self) -> int {
        match self {
            Tier::Primary => 0,
            Tier::Secondary => 1,
            Tier::Terminal => 2,
        }
    }

    /// The tier that takes over what this one gives up, if there is one.
    pub open spec fn successor(self) -> Option<Tier> {
        match self {
            Tier::Primary => Some(Tier::Secondary),
            Tier::Secondary => Some(Tier::Terminal),
            Tier::Terminal => None,
        }
    }

    /// The tier that takes over what this one gives up. The terminal tier has
    /// none.
    pub fn next(self) -> (next: Option<Tier>)
        ensures
            next == self.successor(),
    {
        match self {
            Tier::Primary => Some(Tier::Secondary),
            Tier::Secondary => Some(Tier::Terminal),
            Tier::Terminal => None,
        }
    }
}

/// The whole chain, in the order in which a record can pass through it.
pub open spec fn chain() -> Seq<Tier> {
    seq![Tier::Primary, Tier::Secondary, Tier::Terminal]
}

} // verus!
