//! The dispatch of a job: what is to be converted and how, the steps before
//! and after the conversion, and the side effects of its end.

use vstd::prelude::*;
use crate::clock::Timestamp;
use crate::db::jobs::{
    after_status_update, get_job, job_index, job_of, lemma_job_index, lemma_update_keeps_index,
    status_update_applies, JobRecordView, JobStoreView,
};
use crate::error::{AppError, AppErrorView};
use crate::ident::JobId;
use crate::models::job::{
    completed_message, failure_message, starting_message, JobStatus, ProgressUpdateView,
};
use crate::models::request::ConversionType;
use crate::paths::{extension, extension_of, join, joined};
use crate::text::{clone_opt, glue, lowercase, str_eq, to_lowercase};
use crate::services::queue::engine::{
    after_publish, event_of, is_pending, is_processing, job_dir, JobQueueInner,
};

verus! {

/// The message of a job whose input is being loaded.
pub open spec fn loading_message() -> Seq<char> {
    "Caricamento file..."@
}

/// The message of a job that is being converted.
pub open spec fn converting_message() -> Seq<char> {
    "Conversione in corso..."@
}

/// The message of a job whose result is being stored.
pub open spec fn saving_message() -> Seq<char> {
    "Salvataggio risultato..."@
}

/// What the conversion of a job needs: where the input is, where the result
/// goes, and how to convert.
pub struct ConversionPlan {
    pub job_id: JobId,
    pub input_path: String,
    pub output_dir: String,
    pub output_path: String,
    pub output_format: String,
    pub conversion_type: ConversionType,
    pub quality: Option<u8>,
    pub is_pdf: bool,
}

/// What a `ConversionPlan` holds, with texts as sequences of characters.
pub struct ConversionPlanView {
    pub job_id: JobId,
    pub input_path: Seq<char>,
    pub output_dir: Seq<char>,
    pub output_path: Seq<char>,
    pub output_format: Seq<char>,
    pub conversion_type: ConversionType,
    pub quality: Option<u8>,
    pub is_pdf: bool,
}

impl View for ConversionPlan {
    type V = ConversionPlanView;

    open spec fn view(&self) -> ConversionPlanView {
        ConversionPlanView {
            job_id: self.job_id,
            input_path: self.input_path@,
            output_dir: self.output_dir@,
            output_path: self.output_path@,
            output_format: self.output_format@,
            conversion_type: self.conversion_type,
            quality: self.quality,
            is_pdf: self.is_pdf,
        }
    }
}

/// How the conversion of a job ended: with the path of the result, or with
/// the text of the error.
pub enum ConversionOutcome {
    Converted(String),
    Failed(String),
}

/// What a `ConversionOutcome` holds.
pub enum ConversionOutcomeView {
    Converted(Seq<char>),
    Failed(Seq<char>),
}

impl View for ConversionOutcome {
    type V = ConversionOutcomeView;

    open spec fn view(&self) -> ConversionOutcomeView {
        match self {
            ConversionOutcome::Converted(p) => ConversionOutcomeView::Converted(p@),
            ConversionOutcome::Failed(e) => ConversionOutcomeView::Failed(e@),
        }
    }
}

/// A notification to deliver to the webhook of a job.
pub struct WebhookCall {
    pub url: String,
    pub job_id: String,
    pub status: String,
    pub error: Option<String>,
    pub timestamp: String,
}

/// What a `WebhookCall` holds.
pub struct WebhookCallView {
    pub url: Seq<char>,
    pub job_id: Seq<char>,
    pub status: Seq<char>,
    pub error: Option<Seq<char>>,
    pub timestamp: Seq<char>,
}

impl View for WebhookCall {
    type V = WebhookCallView;

    open spec fn view(&self) -> WebhookCallView {
        WebhookCallView {
            url: self.url@,
            job_id: self.job_id@,
            status: self.status@,
            error: self.error.deep_view(),
            timestamp: self.timestamp@,
        }
    }
}

impl DeepView for WebhookCall {
    type V = WebhookCallView;

    open spec fn deep_view(&self) -> WebhookCallView {
        self@
    }
}

/// A result to hand to the external storage of its owner, if the owner has
/// that enabled.
pub struct DriveUpload {
    pub job_id: String,
    pub api_key_id: String,
    pub result_path: String,
    pub original_filename: Option<String>,
    pub output_format: String,
    pub conversion_type: String,
}

/// What a `DriveUpload` holds.
pub struct DriveUploadView {
    pub job_id: Seq<char>,
    pub api_key_id: Seq<char>,
    pub result_path: Seq<char>,
    pub original_filename: Option<Seq<char>>,
    pub output_format: Seq<char>,
    pub conversion_type: Seq<char>,
}

impl View for DriveUpload {
    type V = DriveUploadView;

    open spec fn view(&self) -> DriveUploadView {
        DriveUploadView {
            job_id: self.job_id@,
            api_key_id: self.api_key_id@,
            result_path: self.result_path@,
            original_filename: self.original_filename.deep_view(),
            output_format: self.output_format@,
            conversion_type: self.conversion_type@,
        }
    }
}

impl DeepView for DriveUpload {
    type V = DriveUploadView;

    open spec fn deep_view(&self) -> DriveUploadView {
        self@
    }
}

/// What is to happen outside the engine after a job ended.
pub struct SideEffects {
    pub webhook: Option<WebhookCall>,
    pub upload: Option<DriveUpload>,
}

/// What `SideEffects` hold.
pub struct SideEffectsView {
    pub webhook: Option<WebhookCallView>,
    pub upload: Option<DriveUploadView>,
}

impl View for SideEffects {
    type V = SideEffectsView;

    open spec fn view(&self) -> SideEffectsView {
        SideEffectsView { webhook: self.webhook.deep_view(), upload: self.upload.deep_view() }
    }
}

/// What the dispatcher learns from outside the engine.
pub enum DispatchEvent {
    /// The job is to be started.
    Start,
    /// The conversion of the job ended.
    Converted(ConversionOutcome),
    /// The conversion of the job was abandoned.
    Aborted,
}

/// What the dispatcher asks of its caller.
pub enum DispatchAction {
    /// No permit is free: try again when one has been given back.
    Wait,
    /// Convert as planned, then report how it ended.
    Convert(ConversionPlan),
    /// The job ended: carry out the side effects.
    Finish(SideEffects),
    /// There is nothing to do for the job.
    Discard,
}

/// Whether a job can start: its record is stored as `pending`.
pub open spec fn can_start(store: JobStoreView, id: JobId) -> bool {
    is_pending(store, id)
}

/// The table after a job started and passed the checkpoints at 0, 10 and 30
/// percent.
pub open spec fn after_start(store: JobStoreView, id: JobId, now: Seq<char>) -> JobStoreView {
    let p = JobStatus::Processing.text();
    let s1 = after_status_update(store, id.text(), p, 0, Some(starting_message()), None, None, now);
    let s2 = after_status_update(s1, id.text(), p, 10, Some(loading_message()), None, None, now);
    after_status_update(s2, id.text(), p, 30, Some(converting_message()), None, None, now)
}

/// The hub history after a job started.
pub open spec fn history_after_start(
    history: Seq<ProgressUpdateView>,
    id: JobId,
    now: Seq<char>,
) -> Seq<ProgressUpdateView> {
    let p = JobStatus::Processing;
    let h1 = after_publish(history, event_of(id, p, 0, Some(starting_message()), now));
    let h2 = after_publish(h1, event_of(id, p, 10, Some(loading_message()), now));
    after_publish(h2, event_of(id, p, 30, Some(converting_message()), now))
}

/// Whether the conversion of a record is one of a PDF: by its category, or
/// by the extension of its input.
pub open spec fn is_pdf_job(rec: JobRecordView) -> bool {
    ConversionType::of_text(rec.conversion_type) == ConversionType::Pdf || match extension_of(
        rec.input_path,
    ) {
        Some(e) => lowercase(e) == "pdf"@,
        None => false,
    }
}

/// The plan for converting the job of a record.
pub open spec fn plan_of(temp_dir: Seq<char>, id: JobId, rec: JobRecordView) -> ConversionPlanView {
    ConversionPlanView {
        job_id: id,
        input_path: rec.input_path,
        output_dir: job_dir(temp_dir, id),
        output_path: joined(job_dir(temp_dir, id), "output."@ + rec.output_format),
        output_format: rec.output_format,
        conversion_type: ConversionType::of_text(rec.conversion_type),
        quality: match rec.quality {
            Some(q) => Some(q as u8),
            None => None,
        },
        is_pdf: is_pdf_job(rec),
    }
}

/// Whether a conversion that ended is still wanted: the job is processing
/// and has not passed 80 percent.
pub open spec fn can_finish(store: JobStoreView, id: JobId) -> bool {
    is_processing(store, id) && status_update_applies(
        store,
        id.text(),
        JobStatus::Processing.text(),
        80,
        None,
        None,
    )
}

/// The table after the conversion of a job ended: the job passes the
/// checkpoint at 80 percent and completes with its result, or fails with its
/// error at 80 percent. A job that is no longer processing stays as it is.
pub open spec fn after_finish(
    store: JobStoreView,
    id: JobId,
    outcome: ConversionOutcomeView,
    now: Seq<char>,
) -> JobStoreView {
    if can_finish(store, id) {
        let s1 = after_status_update(
            store,
            id.text(),
            JobStatus::Processing.text(),
            80,
            Some(saving_message()),
            None,
            None,
            now,
        );
        match outcome {
            ConversionOutcomeView::Converted(path) => after_status_update(
                s1,
                id.text(),
                JobStatus::Completed.text(),
                100,
                Some(completed_message()),
                None,
                Some(path),
                now,
            ),
            ConversionOutcomeView::Failed(error) => after_status_update(
                s1,
                id.text(),
                JobStatus::Failed.text(),
                80,
                Some(failure_message(error)),
                Some(error),
                None,
                now,
            ),
        }
    } else {
        store
    }
}

/// The hub history after the conversion of a job ended.
pub open spec fn history_after_finish(
    history: Seq<ProgressUpdateView>,
    store: JobStoreView,
    id: JobId,
    outcome: ConversionOutcomeView,
    now: Seq<char>,
) -> Seq<ProgressUpdateView> {
    if can_finish(store, id) {
        let h1 = after_publish(
            history,
            event_of(id, JobStatus::Processing, 80, Some(saving_message()), now),
        );
        match outcome {
            ConversionOutcomeView::Converted(path) => after_publish(
                h1,
                event_of(id, JobStatus::Completed, 100, Some(completed_message()), now),
            ),
            ConversionOutcomeView::Failed(error) => after_publish(
                h1,
                event_of(id, JobStatus::Failed, 80, Some(failure_message(error)), now),
            ),
        }
    } else {
        history
    }
}

/// The side effects of a job that ended. A job that was no longer processing
/// has none. Otherwise its webhook, where it has one, is told how it ended,
/// and the result of a completed job with an owner is offered for upload.
pub open spec fn effects_of(
    store: JobStoreView,
    id: JobId,
    outcome: ConversionOutcomeView,
    now: Seq<char>,
) -> SideEffectsView {
    if can_finish(store, id) {
        let rec = store.jobs[job_index(store.jobs, id.text())];
        SideEffectsView {
            webhook: match rec.webhook_url {
                Some(url) => Some(
                    WebhookCallView {
                        url,
                        job_id: id.text(),
                        status: match outcome {
                            ConversionOutcomeView::Converted(_) => JobStatus::Completed.text(),
                            ConversionOutcomeView::Failed(_) => JobStatus::Failed.text(),
                        },
                        error: match outcome {
                            ConversionOutcomeView::Converted(_) => None,
                            ConversionOutcomeView::Failed(e) => Some(e),
                        },
                        timestamp: now,
                    },
                ),
                None => None,
            },
            upload: match (outcome, rec.api_key_id) {
                (ConversionOutcomeView::Converted(path), Some(key)) => Some(
                    DriveUploadView {
                        job_id: id.text(),
                        api_key_id: key,
                        result_path: path,
                        original_filename: rec.original_filename,
                        output_format: rec.output_format,
                        conversion_type: ConversionType::of_text(rec.conversion_type).text(),
                    },
                ),
                _ => None,
            },
        }
    } else {
        SideEffectsView { webhook: None, upload: None }
    }
}

impl JobQueueInner {
    /// Starts a pending job: moves it to `processing` and through the
    /// checkpoints at 0, 10 and 30 percent, announcing each, and returns the
    /// plan of its conversion. A job that is not stored as `pending`, such as
    /// one cancelled before its dispatch, is left alone.
    pub fn begin_processing(&mut self, id: &JobId, now: &Timestamp) -> (r: Option<ConversionPlan>)
        ensures
            final(self).same_frame(*old(self)),
            can_start(old(self).db@, *id) ==> {
                &&& r matches Some(plan)
                &&& plan@ == plan_of(
                    old(self).temp_dir@,
                    *id,
                    old(self).db@.jobs[job_index(old(self).db@.jobs, id.text())],
                )
                &&& final(self).db@ == after_start(old(self).db@, *id, now.text())
                &&& final(self).hub.history() == history_after_start(
                    old(self).hub.history(),
                    *id,
                    now.text(),
                )
            },
            !can_start(old(self).db@, *id) ==> r is None && final(self).db@ == old(self).db@
                && final(self).hub.history() == old(self).hub.history(),
    {
        proof {
            JobStatus::Processing.lemma_text_parses();
            JobStatus::Pending.lemma_text_parses();
            lemma_job_index(self.db@.jobs, id.text());
        }
        let started: bool = self.mark_job_processing_at(id, now);
        if !started {
            return None;
        }
        let id_text: String = id.to_string();
        let ghost store0 = old(self).db@;
        let ghost i = job_index(store0.jobs, id.text());
        let ghost p = JobStatus::Processing.text();
        proof {
            lemma_update_keeps_index(
                store0.jobs,
                i,
                store0.jobs[i].updated(p, 0, Some(starting_message()), None, None, now.text()),
                id.text(),
            );
        }
        let ghost store1 = self.db@;
        let loaded: bool = self.update_job_progress_at(
            id,
            10,
            Some("Caricamento file...".to_string()),
            now,
        );
        proof {
            assert(loaded);
            lemma_update_keeps_index(
                store1.jobs,
                i,
                store1.jobs[i].updated(p, 10, Some(loading_message()), None, None, now.text()),
                id.text(),
            );
        }
        let converting: bool = self.update_job_progress_at(
            id,
            30,
            Some("Conversione in corso...".to_string()),
            now,
        );
        assert(converting);
        let j: usize = self.db.position(id_text.as_str());
        proof {
            let store2 = after_status_update(
                store1,
                id.text(),
                p,
                10,
                Some(loading_message()),
                None,
                None,
                now.text(),
            );
            lemma_update_keeps_index(
                store2.jobs,
                i,
                store2.jobs[i].updated(p, 30, Some(converting_message()), None, None, now.text()),
                id.text(),
            );
            assert(j == i);
            let r0 = store0.jobs[i];
            let r1 = r0.updated(p, 0, Some(starting_message()), None, None, now.text());
            let r2 = r1.updated(p, 10, Some(loading_message()), None, None, now.text());
            let r3 = r2.updated(p, 30, Some(converting_message()), None, None, now.text());
            assert(store1.jobs[i] == r1);
            assert(store2.jobs[i] == r2);
            assert(self.db@.jobs[i] == r3);
            assert(self.db.jobs[j as int]@ == r3);
        }
        let rec = &self.db.jobs[j];
        let by_extension: bool = match extension(rec.input_path.as_str()) {
            Some(e) => str_eq(to_lowercase(e.as_str()).as_str(), "pdf"),
            None => false,
        };
        let conversion_type: ConversionType = match ConversionType::parse(
            rec.conversion_type.as_str(),
        ) {
            Some(t) => t,
            None => ConversionType::Image,
        };
        let is_pdf: bool = match conversion_type {
            ConversionType::Pdf => true,
            _ => by_extension,
        };
        let output_dir: String = join(self.temp_dir.as_str(), id_text.as_str());
        let file_name: String = glue("output.", rec.output_format.as_str());
        let output_path: String = join(output_dir.as_str(), file_name.as_str());
        Some(
            ConversionPlan {
                job_id: *id,
                input_path: rec.input_path.clone(),
                output_dir,
                output_path,
                output_format: rec.output_format.clone(),
                conversion_type,
                quality: match rec.quality {
                    Some(q) => Some(#[verifier::truncate] (q as u8)),
                    None => None,
                },
                is_pdf,
            },
        )
    }

    /// Records how the conversion of a job ended: the job passes the
    /// checkpoint at 80 percent, then completes or fails, each step announced.
    /// Returns the side effects to carry out. A job that is no longer
    /// processing, such as one cancelled while it was converted, is left as it
    /// is and has no side effects.
    pub fn finish_processing(&mut self, id: &JobId, outcome: ConversionOutcome, now: &Timestamp) -> (r:
        SideEffects)
        ensures
            final(self).same_frame(*old(self)),
            final(self).db@ == after_finish(old(self).db@, *id, outcome@, now.text()),
            final(self).hub.history() == history_after_finish(
                old(self).hub.history(),
                old(self).db@,
                *id,
                outcome@,
                now.text(),
            ),
            r@ == effects_of(old(self).db@, *id, outcome@, now.text()),
    {
        let id_text: String = id.to_string();
        let saved: bool = self.update_job_progress_at(
            id,
            80,
            Some("Salvataggio risultato...".to_string()),
            now,
        );
        if !saved {
            return SideEffects { webhook: None, upload: None };
        }
        let ghost store0 = old(self).db@;
        let ghost i = job_index(store0.jobs, id.text());
        let ghost p = JobStatus::Processing.text();
        let ghost store1 = self.db@;
        proof {
            JobStatus::Processing.lemma_text_parses();
            JobStatus::Completed.lemma_text_parses();
            JobStatus::Failed.lemma_text_parses();
            lemma_job_index(store0.jobs, id.text());
            lemma_update_keeps_index(
                store0.jobs,
                i,
                store0.jobs[i].updated(p, 80, Some(saving_message()), None, None, now.text()),
                id.text(),
            );
            assert(job_of(store1.jobs, id.text()) == Some(store1.jobs[i]));
            assert(store1.jobs[i].progress == 80);
        }
        let j: usize = self.db.position(id_text.as_str());
        let webhook_url: Option<String> = clone_opt(&self.db.jobs[j].webhook_url);
        let owner: Option<String> = clone_opt(&self.db.jobs[j].api_key_id);
        let original_filename: Option<String> = clone_opt(&self.db.jobs[j].original_filename);
        let output_format: String = self.db.jobs[j].output_format.clone();
        let conversion_type: ConversionType = match ConversionType::parse(
            self.db.jobs[j].conversion_type.as_str(),
        ) {
            Some(t) => t,
            None => ConversionType::Image,
        };
        match outcome {
            ConversionOutcome::Converted(path) => {
                let upload: Option<DriveUpload> = match owner {
                    Some(key) => Some(
                        DriveUpload {
                            job_id: id.to_string(),
                            api_key_id: key,
                            result_path: path.clone(),
                            original_filename,
                            output_format,
                            conversion_type: conversion_type.to_string(),
                        },
                    ),
                    None => None,
                };
                let done: bool = self.mark_job_completed_at(id, path, now);
                assert(done);
                let webhook: Option<WebhookCall> = match webhook_url {
                    Some(url) => Some(
                        WebhookCall {
                            url,
                            job_id: id_text,
                            status: JobStatus::Completed.to_string(),
                            error: None,
                            timestamp: now.to_rfc3339(),
                        },
                    ),
                    None => None,
                };
                SideEffects { webhook, upload }
            },
            ConversionOutcome::Failed(error) => {
                let webhook: Option<WebhookCall> = match webhook_url {
                    Some(url) => Some(
                        WebhookCall {
                            url,
                            job_id: id_text,
                            status: JobStatus::Failed.to_string(),
                            error: Some(error.clone()),
                            timestamp: now.to_rfc3339(),
                        },
                    ),
                    None => None,
                };
                let failed: bool = self.mark_job_failed_at(id, error, now);
                assert(failed);
                SideEffects { webhook, upload: None }
            },
        }
    }
}

/// One step of the dispatch of a job at the current time. See
/// `process_job_at`.
pub fn process_job(queue: &mut JobQueueInner, job_id: &JobId, event: DispatchEvent) -> (r:
    DispatchAction)
    ensures
        exists|now: Timestamp| #[trigger]
            dispatch_step(*old(queue), *final(queue), *job_id, event@, now.text(), r@),
{
    let now = Timestamp::now();
    process_job_at(queue, job_id, event, &now)
}

/// What a `DispatchEvent` holds.
pub enum DispatchEventView {
    Start,
    Converted(ConversionOutcomeView),
    Aborted,
}

impl View for DispatchEvent {
    type V = DispatchEventView;

    open spec fn view(&self) -> DispatchEventView {
        match self {
            DispatchEvent::Start => DispatchEventView::Start,
            DispatchEvent::Converted(o) => DispatchEventView::Converted(o@),
            DispatchEvent::Aborted => DispatchEventView::Aborted,
        }
    }
}

/// What a `DispatchAction` holds.
pub enum DispatchActionView {
    Wait,
    Convert(ConversionPlanView),
    Finish(SideEffectsView),
    Discard,
}

impl View for DispatchAction {
    type V = DispatchActionView;

    open spec fn view(&self) -> DispatchActionView {
        match self {
            DispatchAction::Wait => DispatchActionView::Wait,
            DispatchAction::Convert(p) => DispatchActionView::Convert(p@),
            DispatchAction::Finish(e) => DispatchActionView::Finish(e@),
            DispatchAction::Discard => DispatchActionView::Discard,
        }
    }
}

/// How many permits are out after one was given back.
pub open spec fn released(in_use: nat) -> nat {
    if in_use > 0 {
        (in_use - 1) as nat
    } else {
        0
    }
}

/// What one step of the dispatch of a job does to the engine, and the action
/// that it asks for.
///
/// On `Start` the job takes a permit where one is free, and waits otherwise.
/// With the permit a pending job starts and is to be converted; any other job
/// gives the permit back and is discarded. On `Converted` the end of the
/// conversion is recorded and the permit given back. On `Aborted` the permit
/// is given back and the table stays as it is.
pub open spec fn dispatch_step(
    before: JobQueueInner,
    after: JobQueueInner,
    id: JobId,
    event: DispatchEventView,
    now: Seq<char>,
    action: DispatchActionView,
) -> bool {
    &&& after.temp_dir == before.temp_dir
    &&& after.hub.capacity() == before.hub.capacity()
    &&& after.permits.capacity() == before.permits.capacity()
    &&& match event {
        DispatchEventView::Start => if before.permits.in_use() >= before.permits.capacity() {
            &&& action == DispatchActionView::Wait
            &&& after.db@ == before.db@
            &&& after.hub.history() == before.hub.history()
            &&& after.permits.in_use() == before.permits.in_use()
        } else if can_start(before.db@, id) {
            &&& action == DispatchActionView::Convert(
                plan_of(
                    before.temp_dir@,
                    id,
                    before.db@.jobs[job_index(before.db@.jobs, id.text())],
                ),
            )
            &&& after.db@ == after_start(before.db@, id, now)
            &&& after.hub.history() == history_after_start(before.hub.history(), id, now)
            &&& after.permits.in_use() == before.permits.in_use() + 1
        } else {
            &&& action == DispatchActionView::Discard
            &&& after.db@ == before.db@
            &&& after.hub.history() == before.hub.history()
            &&& after.permits.in_use() == before.permits.in_use()
        },
        DispatchEventView::Converted(outcome) => {
            &&& action == DispatchActionView::Finish(effects_of(before.db@, id, outcome, now))
            &&& after.db@ == after_finish(before.db@, id, outcome, now)
            &&& after.hub.history() == history_after_finish(
                before.hub.history(),
                before.db@,
                id,
                outcome,
                now,
            )
            &&& after.permits.in_use() == released(before.permits.in_use())
        },
        DispatchEventView::Aborted => {
            &&& action == DispatchActionView::Discard
            &&& after.db@ == before.db@
            &&& after.hub.history() == before.hub.history()
            &&& after.permits.in_use() == released(before.permits.in_use())
        },
    }
}

/// One step of the dispatch of a job.
pub fn process_job_at(
    queue: &mut JobQueueInner,
    job_id: &JobId,
    event: DispatchEvent,
    now: &Timestamp,
) -> (r: DispatchAction)
    ensures
        dispatch_step(*old(queue), *final(queue), *job_id, event@, now.text(), r@),
        final(queue).permits.in_use() <= final(queue).permits.capacity(),
{
    match event {
        DispatchEvent::Start => {
            if !queue.permits.try_acquire() {
                return DispatchAction::Wait;
            }
            match queue.begin_processing(job_id, now) {
                Some(plan) => DispatchAction::Convert(plan),
                None => {
                    queue.permits.release();
                    DispatchAction::Discard
                },
            }
        },
        DispatchEvent::Converted(outcome) => {
            let effects = queue.finish_processing(job_id, outcome, now);
            queue.permits.release();
            let _ = queue.permits.available_permits();
            DispatchAction::Finish(effects)
        },
        DispatchEvent::Aborted => {
            queue.permits.release();
            let _ = queue.permits.available_permits();
            DispatchAction::Discard
        },
    }
}

/// The path of the result of a completed job.
pub fn get_job_result(queue: &JobQueueInner, job_id: &JobId) -> (r: Result<String, AppError>)
    ensures
        match job_of(queue.db@.jobs, job_id.text()) {
            None => r matches Err(e) && e@ == AppErrorView::JobNotFound(job_id.text()),
            Some(rec) => if JobStatus::of_text(rec.status) != JobStatus::Completed {
                r matches Err(e) && e@ == AppErrorView::JobNotCompleted
            } else {
                match rec.result_path {
                    Some(p) => r matches Ok(path) && path@ == p,
                    None => r matches Err(e) && e@ == AppErrorView::Internal(
                        "Percorso risultato mancante"@,
                    ),
                }
            },
        },
{
    let id_text: String = job_id.to_string();
    match get_job(&queue.db, id_text.as_str()) {
        None => Err(AppError::JobNotFound(id_text)),
        Some(rec) => {
            let status: JobStatus = match JobStatus::parse(rec.status.as_str()) {
                Some(s) => s,
                None => JobStatus::Pending,
            };
            if status != JobStatus::Completed {
                return Err(AppError::JobNotCompleted);
            }
            match rec.result_path {
                Some(p) => Ok(p),
                None => Err(AppError::Internal("Percorso risultato mancante".to_string())),
            }
        },
    }
}

} // verus!
