//! The pipeline: three queues, and the steps that move records between them.
//!
//! The pipeline owns the queues and decides. It performs no store operation
//! itself: each worker calls its step function, carries out the [`Action`] it
//! gets, and calls again with a [`Report`].
//!
//! MongoDB ?-> File ?-> Logs

use crate::escalation::{lemma_escalates_at_the_limit, Placement};
use crate::identifier::{fresh_identifier, hyphenated};
use crate::item::PisAller;
use crate::layout::{base_directory, base_of, collection_name, file_path, tag_directory};
use crate::queue::{len, new_queue, pop, push, queued};
use crate::record::{PisAllerRecord, RecordView, RETRY_LIMIT};
use crate::shutdown::{joins_of_all, lemma_wait_is_bounded, longest_wait, Join, GRACE_PERIOD_SECS};
use crate::tier::Tier;
use crate::worker::{Action, ActionView, Report, ReportView, POLL_INTERVAL_MILLIS};
use crossbeam_queue::SegQueue;
use vstd::prelude::*;
use vstd::string::{to_string_from_display_ensures, StringExecFns};

verus! {

/// Where the pipeline is in its life.
#[derive(Debug, Clone, Copy, PartialEq, Eq, Structural)]
pub enum Phase {
    /// Built, and not started: records are taken in and kept.
    Idle,
    /// Started: the workers store what is queued.
    Running,
    /// Shut down: the workers leave their loops.
    Stopped,
}

/// The pipeline of one application: a queue of records for each tier, and
/// the phase that tells the workers whether to go on.
pub struct PersistentPisAller {
    application: &'static str,
    log_queue: SegQueue<PisAllerRecord>,
    file_queue: SegQueue<PisAllerRecord>,
    mongo_queue: SegQueue<PisAllerRecord>,
    phase: Phase,
}

/// A [`PersistentPisAller`] as mathematical values: its phase, and the
/// records that wait in each tier, the oldest first.
pub struct Pipeline {
    pub application: Seq<char>,
    pub phase: Phase,
    pub primary: Seq<RecordView>,
    pub secondary: Seq<RecordView>,
    pub terminal: Seq<RecordView>,
}

impl Pipeline {
    /// The pipeline of `application` before anything has happened.
    pub open spec fn empty(application: Seq<char>) -> Pipeline {
        Pipeline {
            application,
            phase: Phase::Idle,
            primary: Seq::empty(),
            secondary: Seq::empty(),
            terminal: Seq::empty(),
        }
    }

    /// The records that wait in `tier`.
    pub open spec fn queue(self, tier: Tier) -> Seq<RecordView> {
        match tier {
            Tier::Primary => self.primary,
            Tier::Secondary => self.secondary,
            Tier::Terminal => self.terminal,
        }
    }

    /// The pipeline with `records` waiting in `tier`, and all else as it is.
    pub open spec fn with_queue(self, tier: Tier, records: Seq<RecordView>) -> Pipeline {
        match tier {
            Tier::Primary => Pipeline { primary: records, ..self },
            Tier::Secondary => Pipeline { secondary: records, ..self },
            Tier::Terminal => Pipeline { terminal: records, ..self },
        }
    }

    /// The pipeline with `record` added at the end of the queue of `tier`.
    pub open spec fn put(self, tier: Tier, record: RecordView) -> Pipeline {
        self.with_queue(tier, self.queue(tier).push(record))
    }

    /// The pipeline in another phase.
    pub open spec fn in_phase(self, phase: Phase) -> Pipeline {
        Pipeline { phase, ..self }
    }

    /// Whether the workers may take records from the queues.
    pub open spec fn running(self) -> bool {
        self.phase == Phase::Running
    }

    /// The pipeline after the worker of `tier` has reported. A record that
    /// its store has refused goes back into a queue, one failure richer:
    /// the queue of `tier`, or that of the next tier once the attempts of
    /// `tier` are used up. Any other report changes nothing, and neither
    /// does a report from the terminal tier, whose store cannot fail.
    pub open spec fn settled(self, tier: Tier, report: ReportView) -> Pipeline {
        match report {
            ReportView::Failed { record, detail } if tier != Tier::Terminal => {
                let placed = (Placement { tier, record }).after_failure(detail);
                self.put(placed.tier, placed.record)
            },
            _ => self,
        }
    }

    /// The pipeline after the worker of `tier` has looked at its queue: a
    /// running pipeline gives it the oldest record, if there is one.
    pub open spec fn polled(self, tier: Tier) -> Pipeline {
        if self.running() && self.queue(tier).len() > 0 {
            self.with_queue(tier, self.queue(tier).drop_first())
        } else {
            self
        }
    }

    /// Whether the worker of `tier` gets a record when it looks at its
    /// queue.
    pub open spec fn serves(self, tier: Tier) -> bool {
        self.running() && self.queue(tier).len() > 0
    }

    /// What the worker of a tier is told when it gets no record: to leave,
    /// where the pipeline does not run, and else to wait.
    pub open spec fn idle_action(self) -> ActionView {
        if self.running() {
            ActionView::Wait { millis: POLL_INTERVAL_MILLIS as nat }
        } else {
            ActionView::Exit
        }
    }

    /// What the primary worker is told to do.
    pub open spec fn primary_action(self) -> ActionView {
        if self.serves(Tier::Primary) {
            ActionView::insert(self.application, self.primary[0])
        } else {
            self.idle_action()
        }
    }

    /// What the secondary worker is told to do, where `identifier` is the
    /// name that has been drawn for the file.
    pub open spec fn secondary_action(self, identifier: Seq<char>) -> ActionView {
        if self.serves(Tier::Secondary) {
            ActionView::write(self.application, self.secondary[0], identifier)
        } else {
            self.idle_action()
        }
    }

    /// What the terminal worker is told to do.
    pub open spec fn terminal_action(self) -> ActionView {
        if self.serves(Tier::Terminal) {
            ActionView::Emit { record: self.terminal[0] }
        } else {
            self.idle_action()
        }
    }

    /// The pipeline after one turn of the worker of `tier`, to which the
    /// worker brings `report`.
    pub open spec fn turned(self, tier: Tier, report: ReportView) -> Pipeline {
        self.settled(tier, report).polled(tier)
    }

    /// The record that the worker of `tier` is handed at the turn to which
    /// it brings `report`, if it is handed one.
    pub open spec fn handed(self, tier: Tier, report: ReportView) -> Option<RecordView> {
        if self.settled(tier, report).serves(tier) {
            Some(self.settled(tier, report).queue(tier)[0])
        } else {
            None
        }
    }

    /// A store that fails every time. The worker of `tier` holds `record`;
    /// it reports a failure, with the first of `details`, and goes on so with
    /// whatever record it is handed, until the details are used up or it is
    /// handed nothing. The result is the pipeline after that, and the record
    /// that the worker holds then.
    pub open spec fn failing(self, tier: Tier, record: RecordView, details: Seq<Seq<char>>) -> (
        Pipeline,
        Option<RecordView>,
    )
        decreases details.len(),
    {
        if details.len() == 0 {
            (self, Some(record))
        } else {
            let (before, held) = self.failing(tier, record, details.drop_last());
            match held {
                Some(record) => {
                    let report = ReportView::Failed { record, detail: details.last() };
                    (before.turned(tier, report), before.handed(tier, report))
                },
                None => (before, None),
            }
        }
    }

    /// The pipeline after `turns` turns of the terminal worker, with nothing
    /// else going on.
    pub open spec fn after_terminal_turns(self, turns: nat) -> Pipeline
        decreases turns,
    {
        if turns == 0 {
            self
        } else {
            self.polled(Tier::Terminal).after_terminal_turns((turns - 1) as nat)
        }
    }

    /// The records that the terminal worker is told to show in `turns` turns,
    /// with nothing else going on, in the order in which it is told.
    pub open spec fn emitted(self, turns: nat) -> Seq<RecordView>
        decreases turns,
    {
        if turns == 0 {
            Seq::empty()
        } else {
            let rest = self.polled(Tier::Terminal).emitted((turns - 1) as nat);
            match self.terminal_action() {
                ActionView::Emit { record } => seq![record] + rest,
                _ => rest,
            }
        }
    }

    /// The workers that a shutdown has to wait for: all three where the
    /// pipeline runs, none where it does not.
    pub open spec fn joins(self) -> Seq<Join> {
        if self.running() {
            joins_of_all()
        } else {
            Seq::empty()
        }
    }

    /// The pipeline after the signal to shut down: a running pipeline has
    /// stopped, and one that was not running is what it was.
    pub open spec fn signalled(self) -> Pipeline {
        if self.running() {
            self.in_phase(Phase::Stopped)
        } else {
            self
        }
    }
}

/// A worker whose store keeps failing gets its record back, one failure
/// richer each time, as long as the tier grants attempts; meanwhile no queue
/// changes. At the failure that uses up the attempts the record joins the
/// queue of the next tier instead, and the worker is handed nothing. This is
/// so for a record that is alone in its tier; where others wait, the record
/// takes its turns among them.
pub proof fn lemma_failing_store_hands_over(
    pipeline: Pipeline,
    tier: Tier,
    record: RecordView,
    details: Seq<Seq<char>>,
)
    requires
        pipeline.running(),
        tier != Tier::Terminal,
        pipeline.queue(tier).len() == 0,
        record.retries < RETRY_LIMIT,
        record.retries + details.len() <= RETRY_LIMIT,
    ensures
        record.retries + details.len() < RETRY_LIMIT ==> pipeline.failing(tier, record, details)
            == (pipeline, Some((Placement { tier, record }).after_failures(details).record)),
        record.retries + details.len() == RETRY_LIMIT ==> pipeline.failing(
            tier,
            record,
            details,
        ) == (
            pipeline.put(
                tier.successor().unwrap(),
                (Placement { tier, record }).after_failures(details).record,
            ),
            None::<RecordView>,
        ),
    decreases details.len(),
{
    let start = Placement { tier, record };
    lemma_escalates_at_the_limit(start, details);
    if details.len() > 0 {
        let earlier = details.drop_last();
        lemma_failing_store_hands_over(pipeline, tier, record, earlier);
        lemma_escalates_at_the_limit(start, earlier);
        let held = start.after_failures(earlier);
        let report = ReportView::Failed { record: held.record, detail: details.last() };
        let settled = pipeline.settled(tier, report);
        if held.record.exhausted() {
            assert(settled.queue(tier) =~= pipeline.queue(tier));
        } else {
            assert(settled.queue(tier).drop_first() =~= pipeline.queue(tier));
            assert(pipeline.turned(tier, report) == pipeline);
        }
    }
}

/// What has reached the terminal tier of a running pipeline is shown to the
/// operator, each record once: as many turns of the terminal worker as
/// records wait there show them all, in their order, and further turns show
/// nothing more. After that the terminal queue is empty, and the other two
/// queues hold what they held: no record has gone back.
pub proof fn lemma_terminal_emits_each_once(pipeline: Pipeline, turns: nat)
    requires
        pipeline.running(),
        turns >= pipeline.terminal.len(),
    ensures
        pipeline.emitted(turns) == pipeline.terminal,
        pipeline.after_terminal_turns(turns) == pipeline.with_queue(
            Tier::Terminal,
            Seq::empty(),
        ),
    decreases turns,
{
    if turns == 0 {
        assert(pipeline.terminal =~= Seq::empty());
    } else {
        let next = pipeline.polled(Tier::Terminal);
        lemma_terminal_emits_each_once(next, (turns - 1) as nat);
        if pipeline.terminal.len() > 0 {
            assert(seq![pipeline.terminal[0]] + pipeline.terminal.drop_first()
                =~= pipeline.terminal);
        } else {
            assert(pipeline.terminal =~= Seq::empty());
        }
    }
}

impl View for PersistentPisAller {
    type V = Pipeline;

    closed spec fn view(&self) -> Pipeline {
        Pipeline {
            application: self.application@,
            phase: self.phase,
            primary: queued(self.mongo_queue),
            secondary: queued(self.file_queue),
            terminal: queued(self.log_queue),
        }
    }
}

impl PersistentPisAller {
    /// A pipeline for `application`, with empty queues and not yet started.
    pub fn const_new(application: &'static str) -> (pipeline: Self)
        ensures
            pipeline@ == Pipeline::empty(application@),
    {
        Self {
            application,
            log_queue: new_queue(),
            file_queue: new_queue(),
            mongo_queue: new_queue(),
            phase: Phase::Idle,
        }
    }

    /// The phase that the pipeline is in.
    pub fn phase(&self) -> (phase: Phase)
        ensures
            phase == self@.phase,
    {
        self.phase
    }

    /// The number of records that wait in `tier`.
    pub fn pending(&self, tier: Tier) -> (count: usize)
        ensures
            count == self@.queue(tier).len(),
    {
        match tier {
            Tier::Primary => len(&self.mongo_queue),
            Tier::Secondary => len(&self.file_queue),
            Tier::Terminal => len(&self.log_queue),
        }
    }

    /// The directory that has to exist before the pipeline is started.
    pub fn base_directory(&self) -> (path: String)
        ensures
            path@ == base_of(self@.application),
    {
        base_directory(self.application)
    }

    /// Starts the pipeline, if its directory could be made: `directories`
    /// says whether [`Self::base_directory`] exists now. Without the
    /// directory the pipeline stays as it is, and the caller gets the reason.
    pub fn initiate(&mut self, directories: bool) -> (started: Result<(), &'static str>)
        ensures
            directories ==> started is Ok && final(self)@ == old(self)@.in_phase(Phase::Running),
            !directories ==> final(self)@ == old(self)@ && (started matches Err(reason)
                && reason@ == "Failed to create pis aller directories"@),
    {
        if !directories {
            return Err("Failed to create pis aller directories");
        }
        self.phase = Phase::Running;
        Ok(())
    }

    /// Takes in a payload that could not be written where it belongs: a new
    /// record, on which nothing has failed yet, joins the primary queue.
    /// Nothing else changes, and no store is asked anything.
    pub fn submit(&mut self, tag: &'static str, payload: PisAller, error_context: String)
        ensures
            final(self)@ == old(self)@.put(
                Tier::Primary,
                RecordView::fresh(tag@, payload@, error_context@),
            ),
    {
        self.enqueue(
            Tier::Primary,
            PisAllerRecord { tag, error: error_context, data: payload, retries: 0 },
        );
    }

    /// [`Self::submit`] for whatever converts into a payload and whatever can
    /// be written out as text. The two conversions are the caller's: the
    /// record that joins the primary queue holds what they return.
    pub fn process<V: Into<PisAller>, E: core::fmt::Display>(
        &mut self,
        tag: &'static str,
        value: V,
        error: E,
    )
        ensures
            exists|payload: PisAller, narrative: String|
                {
                    &&& call_ensures(V::into, (value,), payload)
                    &&& to_string_from_display_ensures::<E>(&error, narrative)
                    &&& final(self)@ == old(self)@.put(
                        Tier::Primary,
                        RecordView::fresh(tag@, payload@, narrative@),
                    )
                },
    {
        let narrative = error.to_string();
        let payload: PisAller = value.into();
        self.submit(tag, payload, narrative);
    }

    /// Adds `record` at the end of the queue of `tier`.
    fn enqueue(&mut self, tier: Tier, record: PisAllerRecord)
        ensures
            final(self)@ == old(self)@.put(tier, record@),
    {
        match tier {
            Tier::Primary => push(&mut self.mongo_queue, record),
            Tier::Secondary => push(&mut self.file_queue, record),
            Tier::Terminal => push(&mut self.log_queue, record),
        }
    }

    /// Takes note of what the worker of `tier` reports: a record that its
    /// store has refused is queued again, in `tier` or in the next one.
    fn settle(&mut self, tier: Tier, report: Report)
        ensures
            final(self)@ == old(self)@.settled(tier, report@),
    {
        if let Report::Failed { record, detail } = report {
            if let Some(next) = tier.next() {
                let mut record = record;
                if record.fail(detail.as_str()) {
                    self.enqueue(next, record);
                } else {
                    self.enqueue(tier, record);
                }
            }
        }
    }

    /// Takes the oldest record out of the queue of `tier`, if the pipeline
    /// runs and the queue holds one.
    fn poll(&mut self, tier: Tier) -> (record: Option<PisAllerRecord>)
        ensures
            final(self)@ == old(self)@.polled(tier),
            record is Some == old(self)@.serves(tier),
            record matches Some(head) ==> head@ == old(self)@.queue(tier)[0],
    {
        if self.phase != Phase::Running {
            return None;
        }
        match tier {
            Tier::Primary => pop(&mut self.mongo_queue),
            Tier::Secondary => pop(&mut self.file_queue),
            Tier::Terminal => pop(&mut self.log_queue),
        }
    }

    /// What a worker that got no record is told: to leave or to wait.
    fn idle(&self) -> (action: Action)
        ensures
            action@ == self@.idle_action(),
    {
        if self.phase == Phase::Running {
            Action::Wait { millis: POLL_INTERVAL_MILLIS }
        } else {
            Action::Exit
        }
    }

    /// One turn of the primary worker. First the report on its last action
    /// is settled: a record that the database has refused is queued again,
    /// here or in the secondary tier. Then the worker is told what to do: to
    /// leave, to wait, or to insert the oldest record of the primary queue,
    /// which leaves the queue with that.
    pub fn mongo_thread(&mut self, report: Report) -> (action: Action)
        ensures
            final(self)@ == old(self)@.turned(Tier::Primary, report@),
            action@ == old(self)@.settled(Tier::Primary, report@).primary_action(),
    {
        self.settle(Tier::Primary, report);
        match self.poll(Tier::Primary) {
            Some(record) => Action::Insert {
                database: String::from_str(self.application),
                collection: collection_name(record.tag),
                record,
            },
            None => self.idle(),
        }
    }

    /// One turn of the secondary worker. First the report on its last action
    /// is settled: a record that could not be written is queued again, here
    /// or in the terminal tier. Then the worker is told what to do: to leave,
    /// to wait, or to write the oldest record of the secondary queue, which
    /// leaves the queue with that, to a file under a name drawn for it.
    pub fn file_thread(&mut self, report: Report) -> (action: Action)
        ensures
            final(self)@ == old(self)@.turned(Tier::Secondary, report@),
            action@ == old(self)@.settled(Tier::Secondary, report@).secondary_action(
                action@.identifier(),
            ),
            action@ is Write ==> hyphenated(action@.identifier()),
    {
        self.settle(Tier::Secondary, report);
        match self.poll(Tier::Secondary) {
            Some(record) => {
                let folder = tag_directory(self.application, record.tag);
                let identifier = fresh_identifier();
                let path = file_path(folder.as_str(), identifier.as_str(), record.data.format());
                Action::Write { folder, identifier, path, record }
            },
            None => self.idle(),
        }
    }

    /// One turn of the terminal worker, whose store cannot fail: it is told
    /// to leave, to wait, or to show the operator the oldest record of the
    /// terminal queue. That record leaves the queue and enters no other.
    pub fn log_thread(&mut self) -> (action: Action)
        ensures
            final(self)@ == old(self)@.polled(Tier::Terminal),
            action@ == old(self)@.terminal_action(),
    {
        match self.poll(Tier::Terminal) {
            Some(record) => Action::Emit { record },
            None => self.idle(),
        }
    }

    /// Signals the workers to stop and says whom to wait for: from now on
    /// every worker is told to leave at its next turn. The workers of a
    /// running pipeline are to be joined one after the other, in the order of
    /// the chain, each within the grace period; a pipeline that does not run
    /// has none. The queues keep what they hold.
    pub fn shutdown(&mut self) -> (plan: Vec<Join>)
        ensures
            final(self)@ == old(self)@.signalled(),
            plan@ == old(self)@.joins(),
            longest_wait(plan@) <= 3 * GRACE_PERIOD_SECS,
    {
        proof {
            lemma_wait_is_bounded();
        }
        let mut plan: Vec<Join> = Vec::new();
        if self.phase == Phase::Running {
            self.phase = Phase::Stopped;
            plan.push(Join { worker: Tier::Primary, grace_secs: GRACE_PERIOD_SECS });
            plan.push(Join { worker: Tier::Secondary, grace_secs: GRACE_PERIOD_SECS });
            plan.push(Join { worker: Tier::Terminal, grace_secs: GRACE_PERIOD_SECS });
        }
        assert(plan@ =~= old(self)@.joins());
        plan
    }
}

} // verus!
