//! No identifier stands for two records: what the table of jobs has from
//! its key, and that every operation keeps it.

use vstd::prelude::*;
use crate::db::jobs::records::{
    has_job, job_index, lemma_job_index, lemma_job_index_is, JobRecordView,
};
use crate::db::jobs::records::JobStoreView;
use crate::db::jobs::store::{
    after_cancel, after_drive_file_change, after_retry_reset, after_status_update,
};
use crate::db::jobs::sweep::without_stale;

verus! {

/// Whether no identifier stands for two records of the table.
pub open spec fn distinct_ids(jobs: Seq<JobRecordView>) -> bool {
    forall|i: int, j: int|
        0 <= i < j < jobs.len() ==> (#[trigger] jobs[i]).id != (#[trigger] jobs[j]).id
}

/// A record is stored under an identifier exactly where some record has it.
pub proof fn lemma_has_job(jobs: Seq<JobRecordView>, id: Seq<char>)
    ensures
        has_job(jobs, id) <==> exists|k: int| 0 <= k < jobs.len() && (#[trigger] jobs[k]).id == id,
{
    lemma_job_index(jobs, id);
    if has_job(jobs, id) {
        assert(jobs[job_index(jobs, id)].id == id);
    }
}

/// Storing a record under an identifier that is not taken keeps the
/// identifiers distinct.
pub proof fn lemma_create_keeps_distinct(jobs: Seq<JobRecordView>, record: JobRecordView)
    requires
        distinct_ids(jobs),
        !has_job(jobs, record.id),
    ensures
        distinct_ids(jobs.push(record)),
{
    lemma_job_index(jobs, record.id);
    let out = jobs.push(record);
    assert forall|i: int, j: int| 0 <= i < j < out.len() implies (#[trigger] out[i]).id != (
    #[trigger] out[j]).id by {
        assert(out[i] == jobs[i]);
        if j < jobs.len() {
            assert(out[j] == jobs[j]);
        }
    }
}

/// Replacing a record by one with the same identifier keeps the identifiers
/// distinct. Every update of a job is such a replacement.
pub proof fn lemma_update_keeps_distinct(jobs: Seq<JobRecordView>, k: int, record: JobRecordView)
    requires
        distinct_ids(jobs),
        0 <= k < jobs.len(),
        record.id == jobs[k].id,
    ensures
        distinct_ids(jobs.update(k, record)),
{
    let out = jobs.update(k, record);
    assert forall|i: int, j: int| 0 <= i < j < out.len() implies (#[trigger] out[i]).id != (
    #[trigger] out[j]).id by {
        assert(out[i].id == jobs[i].id);
        assert(out[j].id == jobs[j].id);
    }
}

/// Removing a record keeps the identifiers distinct, and the removed job is
/// no longer found.
pub proof fn lemma_delete_keeps_distinct(jobs: Seq<JobRecordView>, k: int)
    requires
        distinct_ids(jobs),
        0 <= k < jobs.len(),
    ensures
        distinct_ids(jobs.remove(k)),
        !has_job(jobs.remove(k), jobs[k].id),
{
    let out = jobs.remove(k);
    assert forall|i: int| 0 <= i < out.len() implies (#[trigger] out[i]).id != jobs[k].id by {
        if i < k {
            assert(out[i] == jobs[i]);
        } else {
            assert(out[i] == jobs[i + 1]);
        }
    }
    assert forall|i: int, j: int| 0 <= i < j < out.len() implies (#[trigger] out[i]).id != (
    #[trigger] out[j]).id by {
        let a = if i < k {
            i
        } else {
            i + 1
        };
        let b = if j < k {
            j
        } else {
            j + 1
        };
        assert(out[i] == jobs[a] && out[j] == jobs[b]);
    }
    lemma_job_index_is(out, jobs[k].id, out.len() as int);
}

/// The records that a cleanup keeps are records of the table, and their
/// identifiers are distinct where those of the table are.
pub proof fn lemma_cleanup_keeps_distinct(jobs: Seq<JobRecordView>, cutoff: Seq<char>)
    ensures
        forall|k: int|
            0 <= k < without_stale(jobs, cutoff).len() ==> jobs.contains(
                #[trigger] without_stale(jobs, cutoff)[k],
            ),
        distinct_ids(jobs) ==> distinct_ids(without_stale(jobs, cutoff)),
    decreases jobs.len(),
{
    if jobs.len() > 0 {
        let rest = jobs.drop_last();
        let kept = without_stale(rest, cutoff);
        let out = without_stale(jobs, cutoff);
        lemma_cleanup_keeps_distinct(rest, cutoff);
        assert forall|k: int| 0 <= k < out.len() implies jobs.contains(#[trigger] out[k]) by {
            if k < kept.len() {
                assert(out[k] == kept[k]);
                let i = choose|i: int| 0 <= i < rest.len() && rest[i] == kept[k];
                assert(jobs[i] == out[k]);
            } else {
                assert(out[k] == jobs[jobs.len() - 1]);
            }
        }
        if distinct_ids(jobs) {
            assert forall|i: int, j: int| 0 <= i < j < rest.len() implies (#[trigger] rest[i]).id
                != (#[trigger] rest[j]).id by {
                assert(rest[i] == jobs[i] && rest[j] == jobs[j]);
            }
            assert forall|i: int, j: int| 0 <= i < j < out.len() implies (#[trigger] out[i]).id
                != (#[trigger] out[j]).id by {
                assert(out[i] == kept[i]);
                if j < kept.len() {
                    assert(out[j] == kept[j]);
                } else {
                    let a = choose|a: int| 0 <= a < rest.len() && rest[a] == kept[i];
                    assert(jobs[a] == kept[i]);
                    assert(out[j] == jobs[jobs.len() - 1]);
                }
            }
        }
    }
}

/// A status update, a reset for a retry, a cancellation and a change of the
/// external artifact each replace one record by a record with the same
/// identifier, so each keeps the identifiers distinct.
pub proof fn lemma_updates_keep_distinct(
    store: JobStoreView,
    id: Seq<char>,
    status: Seq<char>,
    progress: i64,
    message: Option<Seq<char>>,
    error: Option<Seq<char>>,
    result_path: Option<Seq<char>>,
    drive_file_id: Option<Seq<char>>,
    now: Seq<char>,
)
    requires
        distinct_ids(store.jobs),
    ensures
        distinct_ids(
            after_status_update(store, id, status, progress, message, error, result_path, now).jobs,
        ),
        distinct_ids(after_retry_reset(store, id, now).jobs),
        distinct_ids(after_cancel(store, id, now).jobs),
        distinct_ids(after_drive_file_change(store, id, drive_file_id, now).jobs),
{
    lemma_job_index(store.jobs, id);
    let i = job_index(store.jobs, id);
    if i < store.jobs.len() {
        let rec = store.jobs[i];
        lemma_update_keeps_distinct(
            store.jobs,
            i,
            rec.updated(status, progress, message, error, result_path, now),
        );
        lemma_update_keeps_distinct(store.jobs, i, rec.reset_for_retry(now));
        lemma_update_keeps_distinct(store.jobs, i, rec.cancelled(now));
        lemma_update_keeps_distinct(
            store.jobs,
            i,
            JobRecordView { drive_file_id, updated_at: now, ..rec },
        );
    }
}

} // verus!
