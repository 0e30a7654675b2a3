//! The sweeps over the table: old jobs to remove, jobs that ran out of time,
//! results that expired.

use vstd::prelude::*;
use crate::clock::Timestamp;
use crate::models::job::JobStatus;
use crate::text::{str_before, str_eq, text_before};
use crate::db::jobs::records::{JobRecord, JobRecordView, JobStore, StoreError};
use crate::db::jobs::unique::{distinct_ids, lemma_cleanup_keeps_distinct};

verus! {

/// Whether a cleanup with the given cutoff removes the record: the job has
/// ended and was created before the cutoff.
pub open spec fn is_stale(rec: JobRecordView, cutoff: Seq<char>) -> bool {
    rec.is_finished() && text_before(rec.created_at, cutoff)
}

/// The records that a cleanup keeps, in their order.
pub open spec fn without_stale(jobs: Seq<JobRecordView>, cutoff: Seq<char>) -> Seq<JobRecordView>
    decreases jobs.len(),
{
    if jobs.len() == 0 {
        Seq::empty()
    } else if is_stale(jobs.last(), cutoff) {
        without_stale(jobs.drop_last(), cutoff)
    } else {
        without_stale(jobs.drop_last(), cutoff).push(jobs.last())
    }
}

/// The files of a record: its input, then its result where it has one.
pub open spec fn files_of(rec: JobRecordView) -> Seq<Seq<char>> {
    match rec.result_path {
        Some(p) => seq![rec.input_path, p],
        None => seq![rec.input_path],
    }
}

/// The files of the records that a cleanup removes, record by record.
pub open spec fn stale_files(jobs: Seq<JobRecordView>, cutoff: Seq<char>) -> Seq<Seq<char>>
    decreases jobs.len(),
{
    if jobs.len() == 0 {
        Seq::empty()
    } else if is_stale(jobs.last(), cutoff) {
        stale_files(jobs.drop_last(), cutoff) + files_of(jobs.last())
    } else {
        stale_files(jobs.drop_last(), cutoff)
    }
}

/// A cleanup removes exactly the records that it does not keep.
pub proof fn lemma_without_stale_len(jobs: Seq<JobRecordView>, cutoff: Seq<char>)
    ensures
        without_stale(jobs, cutoff).len() <= jobs.len(),
    decreases jobs.len(),
{
    if jobs.len() > 0 {
        lemma_without_stale_len(jobs.drop_last(), cutoff);
    }
}

/// The text of the instant `seconds` before `now`, where the calendar holds
/// it.
pub open spec fn cutoff_text(now: Timestamp, seconds: int) -> Option<Seq<char>> {
    now.text_at(-seconds)
}

/// Removes the completed, failed and cancelled jobs that were created more
/// than `days` days before `now`. Returns how many were removed and their files, for the
/// caller to delete. Fails, and removes nothing, where the cutoff is not an
/// instant of the calendar.
pub fn cleanup_old_jobs(store: &mut JobStore, days: i64, now: &Timestamp) -> (r: Result<
    (u64, Vec<String>),
    StoreError,
>)
    ensures
        distinct_ids(old(store)@.jobs) ==> distinct_ids(final(store)@.jobs),
        final(store)@.api_keys == old(store)@.api_keys,
        match cutoff_text(*now, days * 86400) {
            Some(cutoff) => r matches Ok(out) && final(store)@.jobs == without_stale(
                old(store)@.jobs,
                cutoff,
            ) && out.0 == old(store)@.jobs.len() - final(store)@.jobs.len() && out.1.deep_view()
                == stale_files(old(store)@.jobs, cutoff),
            None => r == Err::<(u64, Vec<String>), StoreError>(StoreError::TimeOutOfRange)
                && final(store)@ == old(store)@,
        },
{
    proof {
        match cutoff_text(*now, days * 86400) {
            Some(cutoff) => {
                lemma_cleanup_keeps_distinct(store@.jobs, cutoff);
            },
            None => {},
        }
    }
    let cutoff: String = match now.rfc3339_at(days, 86400, true) {
        Some(c) => c,
        None => {
            return Err(StoreError::TimeOutOfRange);
        },
    };
    let mut kept: Vec<JobRecord> = Vec::new();
    let mut files: Vec<String> = Vec::new();
    let mut i: usize = 0;
    while i < store.jobs.len()
        invariant
            i <= store.jobs.len(),
            *store == *old(store),
            kept.deep_view() == without_stale(store@.jobs.take(i as int), cutoff@),
            files.deep_view() == stale_files(store@.jobs.take(i as int), cutoff@),
        decreases store.jobs.len() - i,
    {
        proof {
            assert(store@.jobs.take(i + 1).drop_last() =~= store@.jobs.take(i as int));
        }
        let rec = &store.jobs[i];
        if rec.is_finished() && str_before(rec.created_at.as_str(), cutoff.as_str()) {
            let ghost before = files.deep_view();
            files.push(rec.input_path.clone());
            match &rec.result_path {
                Some(p) => {
                    files.push(p.clone());
                },
                None => {},
            }
            assert(files.deep_view() =~= before + files_of(rec@));
        } else {
            let ghost before = kept.deep_view();
            kept.push(rec.copy());
            assert(kept.deep_view() =~= before.push(rec@));
        }
        i += 1;
    }
    proof {
        assert(store@.jobs.take(i as int) =~= store@.jobs);
        lemma_without_stale_len(store@.jobs, cutoff@);
    }
    let removed: usize = store.jobs.len() - kept.len();
    store.jobs = kept;
    Ok((removed as u64, files))
}

/// Whether the record is processing and started before the cutoff.
pub open spec fn is_timed_out(rec: JobRecordView, cutoff: Seq<char>) -> bool {
    &&& rec.status == JobStatus::Processing.text()
    &&& rec.started_at matches Some(t)
    &&& text_before(t, cutoff)
}

/// The condition of the jobs that have been processing since before the
/// cutoff.
pub open spec fn timed_out_before(cutoff: Seq<char>) -> spec_fn(JobRecordView) -> bool {
    |rec: JobRecordView| is_timed_out(rec, cutoff)
}

/// The identifiers of the records that satisfy `pick`, in table order.
pub open spec fn ids_where(jobs: Seq<JobRecordView>, pick: spec_fn(JobRecordView) -> bool) -> Seq<
    Seq<char>,
>
    decreases jobs.len(),
{
    if jobs.len() == 0 {
        Seq::empty()
    } else if pick(jobs.last()) {
        ids_where(jobs.drop_last(), pick).push(jobs.last().id)
    } else {
        ids_where(jobs.drop_last(), pick)
    }
}

/// The identifiers of the jobs that have been processing for more than
/// `timeout_seconds` at `now`. Fails where the cutoff is not an instant of the
/// calendar.
pub fn get_timed_out_jobs(store: &JobStore, timeout_seconds: i64, now: &Timestamp) -> (r: Result<
    Vec<String>,
    StoreError,
>)
    ensures
        match cutoff_text(*now, timeout_seconds as int) {
            Some(cutoff) => r matches Ok(ids) && ids.deep_view() == ids_where(
                store@.jobs,
                timed_out_before(cutoff),
            ),
            None => r == Err::<Vec<String>, StoreError>(StoreError::TimeOutOfRange),
        },
{
    let cutoff: String = match now.rfc3339_at(timeout_seconds, 1, true) {
        Some(c) => c,
        None => {
            return Err(StoreError::TimeOutOfRange);
        },
    };
    let ghost pick = timed_out_before(cutoff@);
    let mut ids: Vec<String> = Vec::new();
    let mut i: usize = 0;
    while i < store.jobs.len()
        invariant
            i <= store.jobs.len(),
            pick == timed_out_before(cutoff@),
            ids.deep_view() == ids_where(store@.jobs.take(i as int), pick),
        decreases store.jobs.len() - i,
    {
        proof {
            assert(store@.jobs.take(i + 1).drop_last() =~= store@.jobs.take(i as int));
        }
        let rec = &store.jobs[i];
        let late: bool = match &rec.started_at {
            Some(t) => str_eq(rec.status.as_str(), "processing") && str_before(
                t.as_str(),
                cutoff.as_str(),
            ),
            None => false,
        };
        assert(late == pick(rec@));
        if late {
            let ghost before = ids.deep_view();
            ids.push(rec.id.clone());
            assert(ids.deep_view() =~= before.push(rec@.id));
        }
        i += 1;
    }
    assert(store@.jobs.take(i as int) =~= store@.jobs);
    Ok(ids)
}

/// Whether the record is completed and its result expired before `now`.
pub open spec fn is_expired(rec: JobRecordView, now: Seq<char>) -> bool {
    &&& rec.status == JobStatus::Completed.text()
    &&& rec.expires_at matches Some(t)
    &&& text_before(t, now)
}

/// The condition of the completed jobs whose result expired before `now`.
pub open spec fn expired_before(now: Seq<char>) -> spec_fn(JobRecordView) -> bool {
    |rec: JobRecordView| is_expired(rec, now)
}

/// The identifiers of the completed jobs whose result has expired at `now`.
pub fn get_expired_jobs(store: &JobStore, now: &Timestamp) -> (r: Vec<String>)
    ensures
        r.deep_view() == ids_where(store@.jobs, expired_before(now.text())),
{
    let limit: String = now.to_rfc3339();
    let ghost pick = expired_before(now.text());
    let mut ids: Vec<String> = Vec::new();
    let mut i: usize = 0;
    while i < store.jobs.len()
        invariant
            i <= store.jobs.len(),
            limit@ == now.text(),
            pick == expired_before(now.text()),
            ids.deep_view() == ids_where(store@.jobs.take(i as int), pick),
        decreases store.jobs.len() - i,
    {
        proof {
            assert(store@.jobs.take(i + 1).drop_last() =~= store@.jobs.take(i as int));
        }
        let rec = &store.jobs[i];
        let gone: bool = match &rec.expires_at {
            Some(t) => str_eq(rec.status.as_str(), "completed") && str_before(
                t.as_str(),
                limit.as_str(),
            ),
            None => false,
        };
        assert(gone == pick(rec@));
        if gone {
            let ghost before = ids.deep_view();
            ids.push(rec.id.clone());
            assert(ids.deep_view() =~= before.push(rec@.id));
        }
        i += 1;
    }
    assert(store@.jobs.take(i as int) =~= store@.jobs);
    ids
}

} // verus!
