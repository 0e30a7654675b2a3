//! The listings of the table: the next pending job in dispatch order, and
//! the pages of jobs, newest first.

use vstd::prelude::*;
use crate::models::job::JobStatus;
use crate::text::{lemma_bytes_before_order, opt_str_eq, str_before, str_eq, text_before};
use crate::db::jobs::records::{JobRecord, JobRecordView, JobStore};

verus! {

/// The place of a stored priority in the dispatch order: `high` first, then
/// `normal` and every other or absent name, then `low`.
pub open spec fn priority_rank(priority: Option<Seq<char>>) -> int {
    if priority == Some("high"@) {
        0
    } else if priority == Some("low"@) {
        2
    } else {
        1
    }
}

/// Whether `a` is to be dispatched strictly before `b`: by priority first, by
/// creation time among equals.
pub open spec fn dispatches_before(a: JobRecordView, b: JobRecordView) -> bool {
    priority_rank(a.priority) < priority_rank(b.priority) || (priority_rank(a.priority)
        == priority_rank(b.priority) && text_before(a.created_at, b.created_at))
}

/// Whether the record at `k` is the next pending job: it is pending, no
/// pending job is to be dispatched before it, and it is the first such record
/// of the table.
pub open spec fn is_next_pending(jobs: Seq<JobRecordView>, k: int) -> bool {
    &&& 0 <= k < jobs.len()
    &&& jobs[k].status == JobStatus::Pending.text()
    &&& forall|j: int|
        0 <= j < jobs.len() && (#[trigger] jobs[j]).status == JobStatus::Pending.text()
            ==> !dispatches_before(jobs[j], jobs[k])
    &&& forall|j: int|
        0 <= j < k && (#[trigger] jobs[j]).status == JobStatus::Pending.text()
            ==> dispatches_before(jobs[k], jobs[j])
}

/// Whether any record is stored as `pending`.
pub open spec fn has_pending(jobs: Seq<JobRecordView>) -> bool {
    exists|j: int| 0 <= j < jobs.len() && (#[trigger] jobs[j]).status == JobStatus::Pending.text()
}

fn rank_of(priority: &Option<String>) -> (r: u8)
    ensures
        r == priority_rank(priority.deep_view()),
{
    if opt_str_eq(priority, "high") {
        0
    } else if opt_str_eq(priority, "low") {
        2
    } else {
        1
    }
}

fn goes_before(a: &JobRecord, b: &JobRecord) -> (r: bool)
    ensures
        r == dispatches_before(a@, b@),
{
    let ra: u8 = rank_of(&a.priority);
    let rb: u8 = rank_of(&b.priority);
    ra < rb || (ra == rb && str_before(a.created_at.as_str(), b.created_at.as_str()))
}

/// `dispatches_before` is a strict weak order on records.
pub proof fn lemma_dispatch_order(a: JobRecordView, b: JobRecordView, c: JobRecordView)
    ensures
        !dispatches_before(a, a),
        dispatches_before(a, b) && dispatches_before(b, c) ==> dispatches_before(a, c),
        !dispatches_before(a, b) && !dispatches_before(b, c) ==> !dispatches_before(a, c),
        dispatches_before(a, b) && !dispatches_before(c, b) ==> dispatches_before(a, c),
        !dispatches_before(b, a) && dispatches_before(b, c) ==> dispatches_before(a, c),
{
    let x = vstd::utf8::encode_utf8(a.created_at);
    let y = vstd::utf8::encode_utf8(b.created_at);
    let z = vstd::utf8::encode_utf8(c.created_at);
    lemma_bytes_before_order(x, y, z);
    lemma_bytes_before_order(x, z, y);
    lemma_bytes_before_order(y, x, z);
    lemma_bytes_before_order(y, z, x);
    lemma_bytes_before_order(z, x, y);
    lemma_bytes_before_order(z, y, x);
}

/// The pending job that is next in the dispatch order: the highest priority
/// first, the oldest among equals, the first stored among those.
pub fn get_next_pending_job(store: &JobStore) -> (r: Option<JobRecord>)
    ensures
        r is Some <==> has_pending(store@.jobs),
        r matches Some(rec) ==> exists|k: int|
            is_next_pending(store@.jobs, k) && store@.jobs[k] == rec@,
{
    let mut best: Option<usize> = None;
    let mut i: usize = 0;
    while i < store.jobs.len()
        invariant
            i <= store.jobs.len(),
            best is Some <==> has_pending(store@.jobs.take(i as int)),
            best matches Some(k) ==> k < i && is_next_pending(store@.jobs.take(i as int), k as int),
        decreases store.jobs.len() - i,
    {
        let ghost prev = store@.jobs.take(i as int);
        let ghost next = store@.jobs.take(i + 1);
        let rec = &store.jobs[i];
        let pending: bool = str_eq(rec.status.as_str(), "pending");
        let ghost old_best = best;
        if pending {
            match best {
                Some(k) => {
                    if goes_before(rec, &store.jobs[k]) {
                        best = Some(i);
                    }
                },
                None => {
                    best = Some(i);
                },
            }
        }
        proof {
            assert(forall|j: int| 0 <= j < i ==> next[j] == prev[j]);
            assert(next[i as int] == rec@);
            if has_pending(prev) {
                let w = choose|j: int|
                    0 <= j < prev.len() && (#[trigger] prev[j]).status
                        == JobStatus::Pending.text();
                assert(next[w] == prev[w]);
            }
            if pending {
                assert(next[i as int].status == JobStatus::Pending.text());
            }
            if has_pending(next) && !pending {
                let w = choose|j: int|
                    0 <= j < next.len() && (#[trigger] next[j]).status
                        == JobStatus::Pending.text();
                assert(w < i);
                assert(prev[w] == next[w]);
            }
            match best {
                Some(k) => {
                    let kk = k as int;
                    assert forall|j: int|
                        0 <= j < next.len() && (#[trigger] next[j]).status
                            == JobStatus::Pending.text() implies !dispatches_before(
                        next[j],
                        next[kk],
                    ) by {
                        if let Some(o) = old_best {
                            let oo = o as int;
                            assert(prev[oo] == next[oo]);
                            if j < i {
                                assert(prev[j] == next[j]);
                                assert(!dispatches_before(prev[j], prev[oo]));
                            }
                            lemma_dispatch_order(next[j], next[oo], next[kk]);
                            lemma_dispatch_order(next[j], next[kk], next[oo]);
                            lemma_dispatch_order(next[kk], next[kk], next[oo]);
                        } else {
                            if j < i {
                                assert(prev[j] == next[j]);
                            }
                            lemma_dispatch_order(next[kk], next[kk], next[kk]);
                        }
                    }
                    assert forall|j: int|
                        0 <= j < kk && (#[trigger] next[j]).status
                            == JobStatus::Pending.text() implies dispatches_before(
                        next[kk],
                        next[j],
                    ) by {
                        assert(prev[j] == next[j]);
                        if let Some(o) = old_best {
                            let oo = o as int;
                            assert(prev[oo] == next[oo]);
                            if kk == oo {
                                assert(dispatches_before(prev[oo], prev[j]));
                            } else {
                                assert(!dispatches_before(prev[j], prev[oo]));
                                lemma_dispatch_order(next[kk], next[oo], next[j]);
                                lemma_dispatch_order(next[j], next[oo], next[kk]);
                            }
                        }
                    }
                },
                None => {},
            }
        }
        i += 1;
    }
    proof {
        assert(store@.jobs.take(i as int) =~= store@.jobs);
    }
    match best {
        Some(k) => Some(store.jobs[k].copy()),
        None => None,
    }
}

/// Which jobs a listing asks for, and which page of them. An absent filter
/// lets every job through. A negative limit stands for no limit, a negative
/// offset for none.
#[derive(Debug)]
pub struct JobsQuery {
    pub status: Option<String>,
    pub conversion_type: Option<String>,
    pub api_key_id: Option<String>,
    pub limit: i64,
    pub offset: i64,
}

/// What a `JobsQuery` holds.
pub struct JobsQueryView {
    pub status: Option<Seq<char>>,
    pub conversion_type: Option<Seq<char>>,
    pub api_key_id: Option<Seq<char>>,
    pub limit: i64,
    pub offset: i64,
}

impl View for JobsQuery {
    type V = JobsQueryView;

    open spec fn view(&self) -> JobsQueryView {
        JobsQueryView {
            status: self.status.deep_view(),
            conversion_type: self.conversion_type.deep_view(),
            api_key_id: self.api_key_id.deep_view(),
            limit: self.limit,
            offset: self.offset,
        }
    }
}

/// How many jobs a listing returns when the query sets no limit.
pub fn default_limit() -> (r: i64)
    ensures
        r == 50,
{
    50
}

/// One page of a listing, and how many jobs the listing has in all.
#[derive(Debug)]
pub struct JobsListResponse {
    pub jobs: Vec<JobRecord>,
    pub total: usize,
    pub limit: i64,
    pub offset: i64,
}

impl JobsQueryView {
    /// Whether the filters of the query let the record through.
    pub open spec fn selects(self, rec: JobRecordView) -> bool {
        &&& self.status matches Some(s) ==> rec.status == s
        &&& self.conversion_type matches Some(t) ==> rec.conversion_type == t
        &&& self.api_key_id matches Some(k) ==> rec.api_key_id == Some(k)
    }

    /// The condition of the records that the filters let through.
    pub open spec fn filter(self) -> spec_fn(JobRecordView) -> bool {
        |rec: JobRecordView| self.selects(rec)
    }
}

/// The condition of the jobs of an owner.
pub open spec fn owned_by(api_key_id: Seq<char>) -> spec_fn(JobRecordView) -> bool {
    |rec: JobRecordView| rec.api_key_id == Some(api_key_id)
}

/// The records that satisfy `pick`, in table order.
pub open spec fn records_where(
    jobs: Seq<JobRecordView>,
    pick: spec_fn(JobRecordView) -> bool,
) -> Seq<JobRecordView>
    decreases jobs.len(),
{
    if jobs.len() == 0 {
        Seq::empty()
    } else if pick(jobs.last()) {
        records_where(jobs.drop_last(), pick).push(jobs.last())
    } else {
        records_where(jobs.drop_last(), pick)
    }
}

/// Where a record goes in a list that is ordered newest first: before the
/// first record that was created earlier than it, so after every record that
/// was created at the same time.
pub open spec fn place_newest_first(sorted: Seq<JobRecordView>, rec: JobRecordView) -> int
    decreases sorted.len(),
{
    if sorted.len() == 0 {
        0
    } else if text_before(sorted[0].created_at, rec.created_at) {
        0
    } else {
        1 + place_newest_first(sorted.drop_first(), rec)
    }
}

/// The records ordered by creation time, newest first; records created at
/// the same time keep the order of the table.
pub open spec fn newest_first(jobs: Seq<JobRecordView>) -> Seq<JobRecordView>
    decreases jobs.len(),
{
    if jobs.len() == 0 {
        Seq::empty()
    } else {
        let rest = newest_first(jobs.drop_last());
        rest.insert(place_newest_first(rest, jobs.last()), jobs.last())
    }
}

/// Whether no record of the list was created before a record that follows
/// it.
pub open spec fn is_newest_first(s: Seq<JobRecordView>) -> bool {
    forall|i: int, j: int|
        0 <= i < j < s.len() ==> !text_before(
            (#[trigger] s[i]).created_at,
            (#[trigger] s[j]).created_at,
        )
}

/// `place_newest_first` is a position of the list; every record before it is
/// no older than the new one, and the record at it, if any, is older.
pub proof fn lemma_place_newest_first(sorted: Seq<JobRecordView>, rec: JobRecordView)
    ensures
        0 <= place_newest_first(sorted, rec) <= sorted.len(),
        forall|j: int|
            0 <= j < place_newest_first(sorted, rec) ==> !text_before(
                (#[trigger] sorted[j]).created_at,
                rec.created_at,
            ),
        place_newest_first(sorted, rec) < sorted.len() ==> text_before(
            sorted[place_newest_first(sorted, rec)].created_at,
            rec.created_at,
        ),
    decreases sorted.len(),
{
    if sorted.len() > 0 && !text_before(sorted[0].created_at, rec.created_at) {
        let t = sorted.drop_first();
        lemma_place_newest_first(t, rec);
        assert forall|j: int| 0 <= j < place_newest_first(sorted, rec) implies !text_before(
            (#[trigger] sorted[j]).created_at,
            rec.created_at,
        ) by {
            if j > 0 {
                assert(sorted[j] == t[j - 1]);
            }
        }
    }
}

/// `newest_first` orders the records newest first and keeps every one of
/// them.
pub proof fn lemma_newest_first(jobs: Seq<JobRecordView>)
    ensures
        is_newest_first(newest_first(jobs)),
        newest_first(jobs).len() == jobs.len(),
        newest_first(jobs).to_multiset() == jobs.to_multiset(),
    decreases jobs.len(),
{
    if jobs.len() > 0 {
        let rest = newest_first(jobs.drop_last());
        let rec = jobs.last();
        let p = place_newest_first(rest, rec);
        lemma_newest_first(jobs.drop_last());
        lemma_place_newest_first(rest, rec);
        let out = rest.insert(p, rec);
        assert forall|i: int, j: int| 0 <= i < j < out.len() implies !text_before(
            (#[trigger] out[i]).created_at,
            (#[trigger] out[j]).created_at,
        ) by {
            let x = vstd::utf8::encode_utf8(out[i].created_at);
            let y = vstd::utf8::encode_utf8(out[j].created_at);
            let z = vstd::utf8::encode_utf8(rec.created_at);
            if j < p {
                assert(out[i] == rest[i] && out[j] == rest[j]);
            } else if j == p {
                assert(out[i] == rest[i]);
            } else if i < p {
                assert(out[i] == rest[i] && out[j] == rest[j - 1]);
            } else if i == p {
                assert(out[j] == rest[j - 1]);
                assert(out[p] == rec);
                if j - 1 > p {
                    assert(!text_before(rest[p].created_at, rest[j - 1].created_at));
                }
                let w = vstd::utf8::encode_utf8(rest[p].created_at);
                lemma_bytes_before_order(z, y, w);
                lemma_bytes_before_order(w, z, y);
                lemma_bytes_before_order(y, w, z);
                lemma_bytes_before_order(w, y, z);
                lemma_bytes_before_order(z, w, y);
                lemma_bytes_before_order(y, z, w);
            } else {
                assert(out[i] == rest[i - 1] && out[j] == rest[j - 1]);
            }
        }
        vstd::seq_lib::to_multiset_insert(rest, p, rec);
        assert(jobs =~= jobs.drop_last().push(rec));
        vstd::seq_lib::to_multiset_insert(jobs.drop_last(), jobs.drop_last().len() as int, rec);
        assert(jobs.drop_last().insert(jobs.drop_last().len() as int, rec) =~= jobs);
    } else {
        assert(jobs =~= Seq::<JobRecordView>::empty());
    }
}

/// The part of a list that a page shows: from the offset on, as many records
/// as the limit allows.
pub open spec fn page_of(s: Seq<JobRecordView>, limit: i64, offset: i64) -> Seq<JobRecordView> {
    let from = if offset < 0 {
        0int
    } else if offset > s.len() {
        s.len() as int
    } else {
        offset as int
    };
    let to = if limit < 0 || from + limit > s.len() {
        s.len() as int
    } else {
        from + limit
    };
    s.subrange(from, to)
}

fn selects(query: &JobsQuery, rec: &JobRecord) -> (r: bool)
    ensures
        r == query@.selects(rec@),
{
    let by_status: bool = match &query.status {
        Some(s) => str_eq(rec.status.as_str(), s.as_str()),
        None => true,
    };
    let by_type: bool = match &query.conversion_type {
        Some(t) => str_eq(rec.conversion_type.as_str(), t.as_str()),
        None => true,
    };
    let by_owner: bool = match &query.api_key_id {
        Some(k) => opt_str_eq(&rec.api_key_id, k.as_str()),
        None => true,
    };
    by_status && by_type && by_owner
}

fn place_in(sorted: &Vec<JobRecord>, rec: &JobRecord) -> (r: usize)
    ensures
        r == place_newest_first(sorted.deep_view(), rec@),
        r <= sorted.len(),
{
    let mut i: usize = 0;
    assert(sorted.deep_view().skip(0) =~= sorted.deep_view());
    while i < sorted.len() && !str_before(sorted[i].created_at.as_str(), rec.created_at.as_str())
        invariant
            i <= sorted.len(),
            place_newest_first(sorted.deep_view(), rec@) == i + place_newest_first(
                sorted.deep_view().skip(i as int),
                rec@,
            ),
        decreases sorted.len() - i,
    {
        proof {
            let s = sorted.deep_view().skip(i as int);
            assert(s[0] == sorted[i as int]@);
            assert(s.drop_first() =~= sorted.deep_view().skip(i + 1));
        }
        i += 1;
    }
    proof {
        let s = sorted.deep_view().skip(i as int);
        if i < sorted.len() {
            assert(s[0] == sorted[i as int]@);
        }
        lemma_place_newest_first(sorted.deep_view(), rec@);
    }
    i
}

/// Puts a record where it belongs in a list that is ordered newest first.
pub fn insert_newest_first(sorted: &mut Vec<JobRecord>, rec: &JobRecord)
    ensures
        final(sorted).deep_view() == old(sorted).deep_view().insert(
            place_newest_first(old(sorted).deep_view(), rec@),
            rec@,
        ),
{
    let ghost before = sorted.deep_view();
    let p: usize = place_in(sorted, rec);
    sorted.insert(p, rec.copy());
    assert(sorted.deep_view() =~= before.insert(p as int, rec@));
}

fn sorted_where(store: &JobStore, query: &JobsQuery) -> (r: Vec<JobRecord>)
    ensures
        r.deep_view() == newest_first(
            records_where(store@.jobs, query@.filter()),
        ),
{
    let ghost pick = query@.filter();
    let mut sorted: Vec<JobRecord> = Vec::new();
    let mut i: usize = 0;
    while i < store.jobs.len()
        invariant
            i <= store.jobs.len(),
            pick == query@.filter(),
            sorted.deep_view() == newest_first(records_where(store@.jobs.take(i as int), pick)),
        decreases store.jobs.len() - i,
    {
        proof {
            assert(store@.jobs.take(i + 1).drop_last() =~= store@.jobs.take(i as int));
        }
        let rec = &store.jobs[i];
        if selects(query, rec) {
            let ghost picked = records_where(store@.jobs.take(i as int), pick);
            insert_newest_first(&mut sorted, rec);
            proof {
                assert(picked.push(rec@).drop_last() =~= picked);
                assert(pick(rec@));
            }
        } else {
            assert(!pick(rec@));
        }
        i += 1;
    }
    assert(store@.jobs.take(i as int) =~= store@.jobs);
    sorted
}

/// The page of a list: from the offset on, as many records as the limit
/// allows.
pub fn page(sorted: Vec<JobRecord>, limit: i64, offset: i64) -> (r: Vec<JobRecord>)
    ensures
        r.deep_view() == page_of(sorted.deep_view(), limit, offset),
{
    let n: usize = sorted.len();
    let from: usize = if offset < 0 {
        0
    } else if (offset as u64) > (n as u64) {
        n
    } else {
        offset as usize
    };
    let to: usize = if limit < 0 || (limit as u64) > ((n - from) as u64) {
        n
    } else {
        from + (limit as usize)
    };
    let mut out: Vec<JobRecord> = Vec::new();
    let mut i: usize = from;
    while i < to
        invariant
            from <= i <= to <= n,
            n == sorted.len(),
            out.deep_view() == sorted.deep_view().subrange(from as int, i as int),
        decreases to - i,
    {
        let ghost before = out.deep_view();
        out.push(sorted[i].copy());
        assert(out.deep_view() =~= before.push(sorted[i as int]@));
        assert(sorted.deep_view().subrange(from as int, i + 1) =~= sorted.deep_view().subrange(
            from as int,
            i as int,
        ).push(sorted[i as int]@));
        i += 1;
    }
    out
}

/// Lists the jobs that the filters of the query let through, newest first,
/// and returns the page that the query asks for together with the number of
/// jobs in the whole listing.
pub fn list_jobs(store: &JobStore, query: &JobsQuery) -> (r: JobsListResponse)
    ensures
        r.jobs.deep_view() == page_of(
            newest_first(records_where(store@.jobs, query@.filter())),
            query.limit,
            query.offset,
        ),
        r.total == records_where(store@.jobs, query@.filter()).len(),
        r.limit == query.limit,
        r.offset == query.offset,
{
    let sorted: Vec<JobRecord> = sorted_where(store, query);
    proof {
        lemma_newest_first(records_where(store@.jobs, query@.filter()));
    }
    let total: usize = sorted.len();
    JobsListResponse {
        jobs: page(sorted, query.limit, query.offset),
        total,
        limit: query.limit,
        offset: query.offset,
    }
}

/// The newest jobs of an owner, at most `limit` of them; all of them for a
/// negative limit.
pub fn get_user_jobs(store: &JobStore, api_key_id: &str, limit: i64) -> (r: Vec<JobRecord>)
    ensures
        r.deep_view() == page_of(
            newest_first(
                records_where(store@.jobs, owned_by(api_key_id@)),
            ),
            limit,
            0,
        ),
{
    let query = JobsQuery {
        status: None,
        conversion_type: None,
        api_key_id: Some(api_key_id.to_string()),
        limit,
        offset: 0,
    };
    let sorted: Vec<JobRecord> = sorted_where(store, &query);
    proof {
        let a = query@.filter();
        let b = owned_by(api_key_id@);
        lemma_records_where_same(store@.jobs, a, b);
    }
    page(sorted, limit, 0)
}

/// Two conditions that hold of the same records select the same records.
pub proof fn lemma_records_where_same(
    jobs: Seq<JobRecordView>,
    a: spec_fn(JobRecordView) -> bool,
    b: spec_fn(JobRecordView) -> bool,
)
    requires
        forall|rec: JobRecordView| #[trigger] a(rec) == b(rec),
    ensures
        records_where(jobs, a) == records_where(jobs, b),
    decreases jobs.len(),
{
    if jobs.len() > 0 {
        lemma_records_where_same(jobs.drop_last(), a, b);
    }
}

} // verus!
