//! What a tier's worker is told to do, and what it reports back.
//!
//! The stores themselves are outside this library. A worker asks its step
//! function for an [`Action`], performs it, and comes back with a [`Report`]
//! of how it went.

use crate::layout::{collection_of, file_of, folder_of};
use crate::record::{PisAllerRecord, RecordView};
use vstd::prelude::*;

verus! {

/// An idle worker looks at its queue again after this many milliseconds.
pub const POLL_INTERVAL_MILLIS: u64 = 100;

/// How the action that a worker was given last has ended.
#[derive(Debug)]
pub enum Report {
    /// There was nothing to store: the worker has just started, has waited,
    /// or has emitted a record.
    Idle,
    /// The store has taken the record.
    Stored,
    /// The store has refused the record; `detail` says how.
    Failed { record: PisAllerRecord, detail: String },
}

/// A [`Report`] as mathematical values.
pub enum ReportView {
    Idle,
    Stored,
    Failed { record: RecordView, detail: Seq<char> },
}

impl View for Report {
    type V = ReportView;

    open spec fn view(&self) -> ReportView {
        match self {
            Report::Idle => ReportView::Idle,
            Report::Stored => ReportView::Stored,
            Report::Failed { record, detail } => ReportView::Failed {
                record: record@,
                detail: detail@,
            },
        }
    }
}

/// What a worker has to do next.
#[derive(Debug)]
pub enum Action {
    /// Leave the loop: the pipeline is not running.
    Exit,
    /// The queue is empty: look again after `millis` milliseconds.
    Wait { millis: u64 },
    /// Insert `record` into `collection` of `database`.
    Insert { database: String, collection: String, record: PisAllerRecord },
    /// Make sure that `folder` exists, then write the raw bytes of the
    /// record's payload to the file at `path`.
    Write { folder: String, identifier: String, path: String, record: PisAllerRecord },
    /// Show `record` to the operator.
    Emit { record: PisAllerRecord },
}

/// An [`Action`] as mathematical values.
pub enum ActionView {
    Exit,
    Wait { millis: nat },
    Insert { database: Seq<char>, collection: Seq<char>, record: RecordView },
    Write { folder: Seq<char>, identifier: Seq<char>, path: Seq<char>, record: RecordView },
    Emit { record: RecordView },
}

impl View for Action {
    type V = ActionView;

    open spec fn view(&self) -> ActionView {
        match self {
            Action::Exit => ActionView::Exit,
            Action::Wait { millis } => ActionView::Wait { millis: *millis as nat },
            Action::Insert { database, collection, record } => ActionView::Insert {
                database: database@,
                collection: collection@,
                record: record@,
            },
            Action::Write { folder, identifier, path, record } => ActionView::Write {
                folder: folder@,
                identifier: identifier@,
                path: path@,
                record: record@,
            },
            Action::Emit { record } => ActionView::Emit { record: record@ },
        }
    }
}

impl ActionView {
    /// The insertion of `record` for `application`: the database is named
    /// after the application, the collection after the record's stream.
    pub open spec fn insert(application: Seq<char>, record: RecordView) -> ActionView {
        ActionView::Insert {
            database: application,
            collection: collection_of(record.tag),
            record,
        }
    }

    /// The write of `record` for `application` under the name `identifier`:
    /// into the directory of the record's stream, with the format of the
    /// payload as the file's extension.
    pub open spec fn write(
        application: Seq<char>,
        record: RecordView,
        identifier: Seq<char>,
    ) -> ActionView {
        ActionView::Write {
            folder: folder_of(application, record.tag),
            identifier,
            path: file_of(folder_of(application, record.tag), identifier, record.data.format()),
            record,
        }
    }

    /// The name that a write gives its file. No other action names one.
    pub open spec fn identifier(self) -> Seq<char> {
        match self {
            ActionView::Write { identifier, .. } => identifier,
            _ => Seq::empty(),
        }
    }
}

} // verus!
