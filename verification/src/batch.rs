//! The handling of a whole notification: its records one after the other,
//! in the order given, each to its end whatever became of the one before.
//!
//! Like a single record, a batch is handled in stages. A stage asks storage
//! for one thing on behalf of one record and is resumed with the answer; the
//! last stage is the report, which holds an outcome for every record. There
//! is no stage for failure: a batch cannot fail.

use vstd::prelude::*;
use crate::config::Config;
use crate::config::ConfigView;
use crate::record::begin;
use crate::record::fetched_view;
use crate::record::first_step;
use crate::record::outcome_after_store;
use crate::record::step_after_fetch;
use crate::record::stored_view;
use crate::record::FetchRequest;
use crate::record::NotificationRecord;
use crate::record::Outcome;
use crate::record::OutcomeView;
use crate::record::PendingFetch;
use crate::record::PendingFetchView;
use crate::record::PendingStore;
use crate::record::PendingStoreView;
use crate::record::RecordView;
use crate::record::Step;
use crate::record::StepView;
use crate::record::StoreRequest;

verus! {

/// The records of a notification as plain text.
pub open spec fn record_views(records: Seq<NotificationRecord>) -> Seq<RecordView> {
    records.map_values(|record: NotificationRecord| record@)
}

/// A list of outcomes as plain values.
pub open spec fn outcome_views(outcomes: Seq<Outcome>) -> Seq<OutcomeView> {
    outcomes.map_values(|outcome: Outcome| outcome@)
}

/// A batch under way: its records, and the outcomes of those that are done.
/// The record in hand is the one after them.
#[derive(Clone, Debug)]
pub struct Batch {
    config: Config,
    records: Vec<NotificationRecord>,
    outcomes: Vec<Outcome>,
}

/// A `Batch` as plain values.
pub struct BatchView {
    pub config: ConfigView,
    pub records: Seq<RecordView>,
    pub outcomes: Seq<OutcomeView>,
}

impl BatchView {
    /// The batch with the record in hand done.
    pub open spec fn with_outcome(self, outcome: OutcomeView) -> BatchView {
        BatchView { outcomes: self.outcomes.push(outcome), ..self }
    }

    /// The position of the record in hand.
    pub open spec fn position(self) -> int {
        self.outcomes.len() as int
    }
}

impl View for Batch {
    type V = BatchView;

    closed spec fn view(&self) -> BatchView {
        BatchView {
            config: self.config@,
            records: record_views(self.records@),
            outcomes: outcome_views(self.outcomes@),
        }
    }
}

/// A batch that waits for the object of the record in hand.
#[derive(Clone, Debug)]
pub struct FetchStage {
    batch: Batch,
    pending: PendingFetch,
}

/// A `FetchStage` as plain values.
pub struct FetchStageView {
    pub batch: BatchView,
    pub pending: PendingFetchView,
}

impl View for FetchStage {
    type V = FetchStageView;

    closed spec fn view(&self) -> FetchStageView {
        FetchStageView { batch: self.batch@, pending: self.pending@ }
    }
}

/// A batch that waits for the PNG of the record in hand to be stored.
#[derive(Clone, Debug)]
pub struct StoreStage {
    batch: Batch,
    pending: PendingStore,
}

/// A `StoreStage` as plain values.
pub struct StoreStageView {
    pub batch: BatchView,
    pub pending: PendingStoreView,
}

impl View for StoreStage {
    type V = StoreStageView;

    closed spec fn view(&self) -> StoreStageView {
        StoreStageView { batch: self.batch@, pending: self.pending@ }
    }
}

/// What a finished batch leaves behind: one outcome for each record, in the
/// order of the records.
#[derive(Clone, Debug)]
pub struct BatchReport {
    pub outcomes: Vec<Outcome>,
}

impl View for BatchReport {
    type V = Seq<OutcomeView>;

    open spec fn view(&self) -> Seq<OutcomeView> {
        outcome_views(self.outcomes@)
    }
}

/// Where the handling of a batch stands.
#[derive(Clone, Debug)]
pub enum BatchStep {
    /// An object is to be fetched.
    Fetch(FetchStage),
    /// A PNG is to be stored.
    Store(StoreStage),
    /// Every record has its outcome.
    Finished(BatchReport),
}

/// A `BatchStep` as plain values.
pub enum BatchStepView {
    Fetch(FetchStageView),
    Store(StoreStageView),
    Finished(Seq<OutcomeView>),
}

impl View for BatchStep {
    type V = BatchStepView;

    open spec fn view(&self) -> BatchStepView {
        match self {
            BatchStep::Fetch(stage) => BatchStepView::Fetch(stage@),
            BatchStep::Store(stage) => BatchStepView::Store(stage@),
            BatchStep::Finished(report) => BatchStepView::Finished(report@),
        }
    }
}

/// The stage that a batch is in when the record in hand is at `step`. A
/// record that waits for storage makes the batch wait. A record that is
/// done, however it ended, makes room for the next one, which is started at
/// once; after the last one the batch is finished.
pub open spec fn proceed(batch: BatchView, step: StepView) -> BatchStepView
    decreases batch.records.len() - batch.outcomes.len(),
{
    match step {
        StepView::Fetch(pending) => BatchStepView::Fetch(FetchStageView { batch, pending }),
        StepView::Store(pending) => BatchStepView::Store(StoreStageView { batch, pending }),
        StepView::Done(outcome) => {
            let next = batch.with_outcome(outcome);
            if next.position() >= next.records.len() {
                BatchStepView::Finished(next.outcomes)
            } else {
                proceed(next, first_step(next.config, next.records[next.position()]))
            }
        },
    }
}

/// The first stage of a batch.
pub open spec fn start(config: ConfigView, records: Seq<RecordView>) -> BatchStepView {
    if records.len() == 0 {
        BatchStepView::Finished(Seq::empty())
    } else {
        proceed(
            BatchView { config, records, outcomes: Seq::empty() },
            first_step(config, records[0]),
        )
    }
}

/// Takes on a batch of records and handles them up to the first request to
/// storage, or to the end where none is needed.
pub fn process_batch(config: Config, records: Vec<NotificationRecord>) -> (step: BatchStep)
    ensures
        step@ == start(config@, record_views(records@)),
{
    if records.len() == 0 {
        let report = BatchReport { outcomes: Vec::new() };
        assert(report@ =~= Seq::<OutcomeView>::empty());
        return BatchStep::Finished(report);
    }
    let first = begin(&config, &records[0]);
    let batch = Batch { config, records, outcomes: Vec::new() };
    assert(batch@.outcomes =~= Seq::<OutcomeView>::empty());
    advance(batch, first)
}

/// Carries a batch on from a step of the record in hand to its next stage.
fn advance(batch: Batch, step: Step) -> (stage: BatchStep)
    ensures
        stage@ == proceed(batch@, step@),
{
    let mut current = batch;
    let mut at = step;
    loop
        invariant
            proceed(current@, at@) == proceed(batch@, step@),
        decreases current.records.len() - current.outcomes.len(),
    {
        match at {
            Step::Fetch(pending) => {
                return BatchStep::Fetch(FetchStage { batch: current, pending });
            },
            Step::Store(pending) => {
                return BatchStep::Store(StoreStage { batch: current, pending });
            },
            Step::Done(outcome) => {
                let ghost before = current@;
                current.outcomes.push(outcome);
                assert(current@ =~= before.with_outcome(outcome@)) by {
                    assert(current@.outcomes =~= before.outcomes.push(outcome@));
                }
                if current.outcomes.len() >= current.records.len() {
                    return BatchStep::Finished(BatchReport { outcomes: current.outcomes });
                }
                at = begin(&current.config, &current.records[current.outcomes.len()]);
            },
        }
    }
}

impl FetchStage {
    /// What to ask storage for.
    pub fn request(&self) -> (request: &FetchRequest)
        ensures
            request@ == self@.pending.request,
    {
        self.pending.request()
    }

    /// The bucket that the record in hand names. Nothing is read from it.
    pub fn named_bucket(&self) -> (bucket: &String)
        ensures
            bucket@ == self@.pending.named_bucket,
    {
        self.pending.named_bucket()
    }

    /// The outcomes of the records that are done.
    pub fn outcomes(&self) -> (outcomes: &Vec<Outcome>)
        ensures
            outcome_views(outcomes@) == self@.batch.outcomes,
    {
        &self.batch.outcomes
    }

    /// Goes on with what storage answered.
    pub fn resume(self, fetched: Result<Vec<u8>, String>) -> (stage: BatchStep)
        ensures
            stage@ == proceed(
                self@.batch,
                step_after_fetch(self@.pending, fetched_view(fetched)),
            ),
    {
        let step = self.pending.resume(fetched);
        advance(self.batch, step)
    }
}

impl StoreStage {
    /// What to ask storage for.
    pub fn request(&self) -> (request: &StoreRequest)
        ensures
            request@ == self@.pending.request,
    {
        self.pending.request()
    }

    /// The width of the picture that is being stored.
    pub fn width(&self) -> (width: u32)
        ensures
            width == self@.pending.width,
    {
        self.pending.width()
    }

    /// The height of the picture that is being stored.
    pub fn height(&self) -> (height: u32)
        ensures
            height == self@.pending.height,
    {
        self.pending.height()
    }

    /// The outcomes of the records that are done.
    pub fn outcomes(&self) -> (outcomes: &Vec<Outcome>)
        ensures
            outcome_views(outcomes@) == self@.batch.outcomes,
    {
        &self.batch.outcomes
    }

    /// Goes on with what storage answered.
    pub fn resume(self, stored: Result<(), String>) -> (stage: BatchStep)
        ensures
            stage@ == proceed(
                self@.batch,
                StepView::Done(outcome_after_store(self@.pending, stored_view(stored))),
            ),
    {
        let outcome = self.pending.resume(stored);
        advance(self.batch, Step::Done(outcome))
    }
}

} // verus!
