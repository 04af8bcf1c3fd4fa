//! One unit of work of the pipeline.

use crate::item::{Payload, PisAller};
use vstd::prelude::*;
use vstd::string::StringExecFns;

verus! {

/// The number of consecutive failures in one tier after which a record
/// leaves that tier for the next one.
pub const RETRY_LIMIT: usize = 5;

/// A payload on its way through the pipeline, with the stream it belongs to
/// and the history of the failures that brought it here.
#[derive(Debug, Clone)]
pub struct PisAllerRecord {
    pub tag: &'static str,
    pub error: String,
    pub data: PisAller,
    pub retries: usize,
}

/// What a [`PisAllerRecord`] holds, as mathematical values.
pub struct RecordView {
    pub tag: Seq<char>,
    pub error: Seq<char>,
    pub data: Payload,
    pub retries: nat,
}

impl RecordView {
    /// The record as it enters the pipeline: no attempt has failed yet.
    pub open spec fn fresh(tag: Seq<char>, data: Payload, error: Seq<char>) -> RecordView {
        RecordView { tag, error, data, retries: 0 }
    }

    /// Whether one more failure uses up the attempts that the current tier
    /// grants.
    pub open spec fn exhausted(self) -> bool {
        self.retries + 1 >= RETRY_LIMIT
    }

    /// The record after one more failed attempt. The failure is appended to
    /// the narrative on a line of its own. The counter goes up by one, or back
    /// to zero when the tier's attempts are used up.
    pub open spec fn failed(self, detail: Seq<char>) -> RecordView {
        RecordView {
            tag: self.tag,
            error: self.error + seq!['\n'] + detail,
            data: self.data,
            retries: if self.exhausted() {
                0
            } else {
                self.retries + 1
            },
        }
    }
}

impl View for PisAllerRecord {
    type V = RecordView;

    open spec fn view(&self) -> RecordView {
        RecordView {
            tag: self.tag@,
            error: self.error@,
            data: self.data@,
            retries: self.retries as nat,
        }
    }
}

impl PisAllerRecord {
    /// Notes one more failed attempt on the record and tells whether the
    /// record has to leave its tier.
    pub fn fail(&mut self, detail: &str) -> (escalate: bool)
        ensures
            final(self)@ == old(self)@.failed(detail@),
            escalate == old(self)@.exhausted(),
    {
        proof {
            reveal_strlit("\n");
        }
        self.error.append("\n");
        self.error.append(detail);
        assert(self.error@ =~= old(self).error@ + seq!['\n'] + detail@);
        if self.retries >= RETRY_LIMIT - 1 {
            self.retries = 0;
            true
        } else {
            self.retries = self.retries + 1;
            false
        }
    }
}

} // verus!
