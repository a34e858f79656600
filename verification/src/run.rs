//! What a batch comes to, given what storage answers.
//!
//! The stages of `batch` say what happens at each answer. This module says
//! what they add up to: it drives the stages with a fixed set of answers and
//! proves that the result is what each record comes to on its own, in the
//! order of the records.

use vstd::prelude::*;
use crate::batch::proceed;
use crate::batch::start;
use crate::batch::BatchStepView;
use crate::batch::BatchView;
use crate::codec::conversion;
use crate::codec::decoding;
use crate::config::ConfigView;
use crate::key_mapper::mapped_key;
use crate::record::conversion_skip;
use crate::record::first_step;
use crate::record::one_year_cache_control;
use crate::record::outcome_after_store;
use crate::record::png_content_type;
use crate::record::step_after_fetch;
use crate::record::FetchRequestView;
use crate::record::OutcomeView;
use crate::record::RecordView;
use crate::record::SkipView;
use crate::record::StepView;
use crate::record::StoreRequestView;

verus! {

/// What storage answers on behalf of one record: to the fetch of its
/// object, and to the store of its PNG. An answer to a request that is
/// never made is never looked at.
pub struct Answers {
    pub fetched: Result<Seq<u8>, Seq<char>>,
    pub stored: Result<(), Seq<char>>,
}

/// A request to storage.
pub enum RequestView {
    Fetch(FetchRequestView),
    Store(StoreRequestView),
}

/// What came of a batch: the requests that were made, in the order in which
/// they were made, and the outcomes of the records.
pub struct Run {
    pub requests: Seq<RequestView>,
    pub outcomes: Seq<OutcomeView>,
}

/// Whether a record names both a bucket and a key.
pub open spec fn is_complete(record: RecordView) -> bool {
    record.bucket is Some && record.key is Some
}

/// The fetch that is made for a complete record: of its key, from the
/// source bucket.
pub open spec fn record_fetch(config: ConfigView, record: RecordView) -> FetchRequestView {
    FetchRequestView { bucket: config.source_bucket, key: record.key->0 }
}

/// The store that is made for a record, if any: there is one where the
/// record is complete, its object was fetched and the object converted. It
/// goes to the destination bucket, under the key that the record's key is
/// mapped to, with the PNG as its body and the fixed metadata.
pub open spec fn record_store(
    config: ConfigView,
    record: RecordView,
    answers: Answers,
) -> Option<StoreRequestView> {
    if is_complete(record) && answers.fetched is Ok && conversion(answers.fetched->Ok_0) is Ok {
        Some(
            StoreRequestView {
                bucket: config.destination_bucket,
                key: mapped_key(record.key->0),
                body: conversion(answers.fetched->Ok_0)->Ok_0.bytes,
                content_type: png_content_type(),
                cache_control: one_year_cache_control(),
            },
        )
    } else {
        None
    }
}

/// The requests that one record gives rise to: none where a field is
/// missing; else the fetch, and after it the store where there is one.
pub open spec fn record_requests(
    config: ConfigView,
    record: RecordView,
    answers: Answers,
) -> Seq<RequestView> {
    if !is_complete(record) {
        Seq::empty()
    } else {
        let fetch = RequestView::Fetch(record_fetch(config, record));
        match record_store(config, record, answers) {
            Some(store) => seq![fetch, RequestView::Store(store)],
            None => seq![fetch],
        }
    }
}

/// The outcome of one record: success where every step succeeded, else the
/// skip of the first step that did not.
pub open spec fn record_outcome(
    config: ConfigView,
    record: RecordView,
    answers: Answers,
) -> OutcomeView {
    if !is_complete(record) {
        OutcomeView::Skipped(SkipView::MissingField)
    } else {
        match answers.fetched {
            Err(message) => OutcomeView::Skipped(SkipView::Fetch { message }),
            Ok(bytes) => match conversion(bytes) {
                Err(failure) => OutcomeView::Skipped(conversion_skip(failure)),
                Ok(png) => match answers.stored {
                    Err(message) => OutcomeView::Skipped(SkipView::Store { message }),
                    Ok(_) => OutcomeView::Succeeded {
                        destination_key: mapped_key(record.key->0),
                        width: png.width,
                        height: png.height,
                    },
                },
            },
        }
    }
}

/// The outcomes of the records of a batch, each taken on its own.
pub open spec fn batch_outcomes(
    config: ConfigView,
    records: Seq<RecordView>,
    answers: Seq<Answers>,
) -> Seq<OutcomeView> {
    Seq::new(records.len(), |i: int| record_outcome(config, records[i], answers[i]))
}

/// The requests of the records from position `from` on, each taken on its
/// own, one record after the other.
pub open spec fn requests_from(
    config: ConfigView,
    records: Seq<RecordView>,
    answers: Seq<Answers>,
    from: int,
) -> Seq<RequestView>
    decreases records.len() - from,
{
    if from < 0 || from >= records.len() {
        Seq::empty()
    } else {
        record_requests(config, records[from], answers[from]) + requests_from(
            config,
            records,
            answers,
            from + 1,
        )
    }
}

/// Whether a stage that waits has a record in hand.
pub open spec fn has_record_in_hand(stage: BatchStepView) -> bool {
    match stage {
        BatchStepView::Fetch(waiting) => waiting.batch.position() < waiting.batch.records.len(),
        BatchStepView::Store(waiting) => waiting.batch.position() < waiting.batch.records.len(),
        BatchStepView::Finished(_) => true,
    }
}

/// A bound on the number of answers that a stage can still take: two for
/// each record that is not done, one less where the fetch is behind.
pub open spec fn answers_left(stage: BatchStepView) -> int {
    match stage {
        BatchStepView::Fetch(waiting) => 2 * (waiting.batch.records.len()
            - waiting.batch.position()),
        BatchStepView::Store(waiting) => 2 * (waiting.batch.records.len()
            - waiting.batch.position()) - 1,
        BatchStepView::Finished(_) => 0,
    }
}

/// Drives a batch from `stage` to its end: each request is noted and is
/// answered with what `answers` holds for the record in hand.
pub open spec fn run(stage: BatchStepView, answers: Seq<Answers>) -> Run
    decreases answers_left(stage),
    when has_record_in_hand(stage)
{
    match stage {
        BatchStepView::Finished(outcomes) => Run { requests: Seq::empty(), outcomes },
        BatchStepView::Fetch(waiting) => {
            let answer = answers[waiting.batch.position()].fetched;
            let next = proceed(waiting.batch, step_after_fetch(waiting.pending, answer));
            proof {
                lemma_answers_left(waiting.batch, step_after_fetch(waiting.pending, answer));
            }
            let rest = run(next, answers);
            Run {
                requests: seq![RequestView::Fetch(waiting.pending.request)] + rest.requests,
                outcomes: rest.outcomes,
            }
        },
        BatchStepView::Store(waiting) => {
            let answer = answers[waiting.batch.position()].stored;
            let done = StepView::Done(outcome_after_store(waiting.pending, answer));
            let next = proceed(waiting.batch, done);
            proof {
                lemma_answers_left(waiting.batch, done);
            }
            let rest = run(next, answers);
            Run {
                requests: seq![RequestView::Store(waiting.pending.request)] + rest.requests,
                outcomes: rest.outcomes,
            }
        },
    }
}

/// Going on from a step of the record in hand leaves a stage with a record
/// in hand, and with fewer answers to take the further the step is.
pub proof fn lemma_answers_left(batch: BatchView, step: StepView)
    requires
        batch.position() < batch.records.len(),
    ensures
        has_record_in_hand(proceed(batch, step)),
        step is Fetch ==> answers_left(proceed(batch, step)) == 2 * (batch.records.len()
            - batch.position()),
        step is Store ==> answers_left(proceed(batch, step)) == 2 * (batch.records.len()
            - batch.position()) - 1,
        step is Done ==> 0 <= answers_left(proceed(batch, step)) <= 2 * (batch.records.len()
            - batch.position()) - 2,
    decreases batch.records.len() - batch.outcomes.len(),
{
    if let StepView::Done(outcome) = step {
        let next = batch.with_outcome(outcome);
        if next.position() < next.records.len() {
            lemma_answers_left(next, first_step(next.config, next.records[next.position()]));
        }
    }
}

/// What is still asked for a record that stands at `step`, and how the
/// record ends.
spec fn rest_of_record(step: StepView, answers: Answers) -> (Seq<RequestView>, OutcomeView) {
    match step {
        StepView::Done(outcome) => (Seq::empty(), outcome),
        StepView::Store(pending) => (
            seq![RequestView::Store(pending.request)],
            outcome_after_store(pending, answers.stored),
        ),
        StepView::Fetch(pending) => {
            let fetch = RequestView::Fetch(pending.request);
            match step_after_fetch(pending, answers.fetched) {
                StepView::Store(storing) => (
                    seq![fetch, RequestView::Store(storing.request)],
                    outcome_after_store(storing, answers.stored),
                ),
                StepView::Done(outcome) => (seq![fetch], outcome),
                StepView::Fetch(_) => (seq![fetch], arbitrary()),
            }
        },
    }
}

/// From its first step a record asks for what `record_requests` lists and
/// ends as `record_outcome` says.
proof fn lemma_record_from_first_step(config: ConfigView, record: RecordView, answers: Answers)
    ensures
        rest_of_record(first_step(config, record), answers) == (
            record_requests(config, record, answers),
            record_outcome(config, record, answers),
        ),
{
}

/// The run of a batch from any step of the record in hand: the rest of that
/// record, then the records after it, each on its own.
proof fn lemma_run_from(batch: BatchView, step: StepView, answers: Seq<Answers>)
    requires
        0 <= batch.position() < batch.records.len(),
    ensures
        run(proceed(batch, step), answers) == (Run {
            requests: rest_of_record(step, answers[batch.position()]).0 + requests_from(
                batch.config,
                batch.records,
                answers,
                batch.position() + 1,
            ),
            outcomes: batch.outcomes.push(rest_of_record(step, answers[batch.position()]).1)
                + batch_outcomes(batch.config, batch.records, answers).skip(
                batch.position() + 1,
            ),
        }),
    decreases
            batch.records.len() - batch.outcomes.len(),
            match step {
                StepView::Fetch(_) => 2nat,
                StepView::Store(_) => 1nat,
                StepView::Done(_) => 0nat,
            },
{
    let at = batch.position();
    let all = batch_outcomes(batch.config, batch.records, answers);
    let later = requests_from(batch.config, batch.records, answers, at + 1);
    lemma_answers_left(batch, step);
    match step {
        StepView::Done(outcome) => {
            let next = batch.with_outcome(outcome);
            if next.position() >= next.records.len() {
                assert(Seq::<RequestView>::empty() + later =~= Seq::<RequestView>::empty());
                assert(next.outcomes + all.skip(at + 1) =~= next.outcomes);
            } else {
                let first = first_step(next.config, next.records[at + 1]);
                lemma_run_from(next, first, answers);
                lemma_record_from_first_step(next.config, next.records[at + 1], answers[at + 1]);
                assert(Seq::<RequestView>::empty() + later =~= later);
                assert(next.outcomes.push(all[at + 1]) + all.skip(at + 2) =~= next.outcomes
                    + all.skip(at + 1));
            }
        },
        StepView::Store(pending) => {
            let done = StepView::Done(outcome_after_store(pending, answers[at].stored));
            lemma_run_from(batch, done, answers);
            lemma_answers_left(batch, done);
            assert(seq![RequestView::Store(pending.request)] + (Seq::<RequestView>::empty()
                + later) =~= seq![RequestView::Store(pending.request)] + later);
        },
        StepView::Fetch(pending) => {
            let after = step_after_fetch(pending, answers[at].fetched);
            let fetch = RequestView::Fetch(pending.request);
            lemma_run_from(batch, after, answers);
            lemma_answers_left(batch, after);
            match after {
                StepView::Store(storing) => {
                    assert(seq![fetch] + (seq![RequestView::Store(storing.request)] + later)
                        =~= seq![fetch, RequestView::Store(storing.request)] + later);
                },
                StepView::Done(_) => {
                    assert(seq![fetch] + (Seq::<RequestView>::empty() + later) =~= seq![fetch]
                        + later);
                },
                StepView::Fetch(_) => {},
            }
        },
    }
}

/// A batch always comes to its end, whatever storage answers. Its report
/// holds one outcome for each record, in the order of the records, and each
/// is what that record comes to on its own: no record is left out, and none
/// is touched by what became of another. The requests that are made are
/// those of the records, one record after the other.
pub proof fn lemma_batch_run(config: ConfigView, records: Seq<RecordView>, answers: Seq<Answers>)
    ensures
        run(start(config, records), answers) == (Run {
            requests: requests_from(config, records, answers, 0),
            outcomes: batch_outcomes(config, records, answers),
        }),
{
    let all = batch_outcomes(config, records, answers);
    if records.len() == 0 {
        assert(all =~= Seq::<OutcomeView>::empty());
    } else {
        let batch = BatchView { config, records, outcomes: Seq::empty() };
        lemma_run_from(batch, first_step(config, records[0]), answers);
        lemma_record_from_first_step(config, records[0], answers[0]);
        assert(batch.outcomes.push(all[0]) + all.skip(1) =~= all);
    }
}

/// A record that lacks its bucket or its key is skipped for that and asks
/// storage for nothing: nothing is fetched, so nothing is decoded, encoded
/// or stored.
pub proof fn lemma_incomplete_record_asks_nothing(
    config: ConfigView,
    record: RecordView,
    answers: Answers,
)
    requires
        record.bucket is None || record.key is None,
    ensures
        first_step(config, record) == StepView::Done(
            OutcomeView::Skipped(SkipView::MissingField),
        ),
        record_requests(config, record, answers) == Seq::<RequestView>::empty(),
        record_outcome(config, record, answers) == OutcomeView::Skipped(SkipView::MissingField),
{
}

/// An object that does not decode is never stored: its record asks for
/// the fetch and for nothing after it, and is skipped for the decoding.
pub proof fn lemma_undecodable_object_is_not_stored(
    config: ConfigView,
    record: RecordView,
    answers: Answers,
)
    requires
        is_complete(record),
        answers.fetched is Ok,
        decoding(answers.fetched->Ok_0) is None,
    ensures
        record_store(config, record, answers) is None,
        record_requests(config, record, answers) == seq![
            RequestView::Fetch(record_fetch(config, record)),
        ],
        record_outcome(config, record, answers) == OutcomeView::Skipped(SkipView::Decode),
{
}

/// In a batch, what becomes of one record does not depend on the others:
/// its outcome is the one it comes to on its own. So a record that fails
/// does not keep a later one from being stored.
pub proof fn lemma_records_are_independent(
    config: ConfigView,
    records: Seq<RecordView>,
    answers: Seq<Answers>,
    position: int,
)
    requires
        0 <= position < records.len(),
    ensures
        run(start(config, records), answers).outcomes.len() == records.len(),
        run(start(config, records), answers).outcomes[position] == record_outcome(
            config,
            records[position],
            answers[position],
        ),
{
    lemma_batch_run(config, records, answers);
}

/// Handling the same object twice gives the same store: the destination key
/// follows from the source key alone and the body from the fetched bytes
/// alone. Neither the bucket that the record names, nor the source bucket,
/// nor the answer to the store has a part in it.
pub proof fn lemma_store_is_repeatable(
    first_config: ConfigView,
    second_config: ConfigView,
    first: RecordView,
    second: RecordView,
    first_answers: Answers,
    second_answers: Answers,
)
    requires
        is_complete(first),
        is_complete(second),
        first.key == second.key,
        first_config.destination_bucket == second_config.destination_bucket,
        first_answers.fetched is Ok,
        first_answers.fetched == second_answers.fetched,
    ensures
        record_store(first_config, first, first_answers) == record_store(
            second_config,
            second,
            second_answers,
        ),
{
}

} // verus!
