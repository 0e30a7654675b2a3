//! What guests may do, and the history of the conversions of a user.

use vstd::prelude::*;
use crate::clock::Timestamp;
use crate::db::jobs::{
    insert_newest_first, newest_first, page, page_of, records_where, JobRecord, JobRecordView,
    JobStore, StoreError,
};
use crate::text::{clone_opt, opt_str_eq, str_before, str_eq, text_before};

verus! {

/// What a sender without an API key may do.
#[derive(Debug)]
pub struct GuestConfig {
    pub enabled: bool,
    pub rate_limit_per_minute: i64,
    pub daily_limit: i64,
    pub max_file_size_mb: i64,
    pub allowed_types: Vec<String>,
}

/// One conversion in the history of a user.
#[derive(Debug)]
pub struct ConversionHistoryItem {
    pub id: String,
    pub input_format: String,
    pub output_format: String,
    pub status: String,
    pub created_at: String,
    pub completed_at: Option<String>,
    pub file_size: i64,
    pub original_filename: Option<String>,
    pub drive_file_id: Option<String>,
}

/// What a `ConversionHistoryItem` holds.
pub struct ConversionHistoryItemView {
    pub id: Seq<char>,
    pub input_format: Seq<char>,
    pub output_format: Seq<char>,
    pub status: Seq<char>,
    pub created_at: Seq<char>,
    pub completed_at: Option<Seq<char>>,
    pub file_size: i64,
    pub original_filename: Option<Seq<char>>,
    pub drive_file_id: Option<Seq<char>>,
}

impl View for ConversionHistoryItem {
    type V = ConversionHistoryItemView;

    open spec fn view(&self) -> ConversionHistoryItemView {
        ConversionHistoryItemView {
            id: self.id@,
            input_format: self.input_format@,
            output_format: self.output_format@,
            status: self.status@,
            created_at: self.created_at@,
            completed_at: self.completed_at.deep_view(),
            file_size: self.file_size,
            original_filename: self.original_filename.deep_view(),
            drive_file_id: self.drive_file_id.deep_view(),
        }
    }
}

impl DeepView for ConversionHistoryItem {
    type V = ConversionHistoryItemView;

    open spec fn deep_view(&self) -> ConversionHistoryItemView {
        self@
    }
}

/// Which conversions a history shows.
#[derive(Debug)]
pub struct HistoryFilters {
    /// By date: `today`, `week`, `month` or `all`.
    pub date_filter: Option<String>,
    pub input_format: Option<String>,
    pub output_format: Option<String>,
    /// By outcome: `completed`, `failed` or `all`.
    pub status: Option<String>,
}

/// What `HistoryFilters` hold.
pub struct HistoryFiltersView {
    pub date_filter: Option<Seq<char>>,
    pub input_format: Option<Seq<char>>,
    pub output_format: Option<Seq<char>>,
    pub status: Option<Seq<char>>,
}

impl View for HistoryFilters {
    type V = HistoryFiltersView;

    open spec fn view(&self) -> HistoryFiltersView {
        HistoryFiltersView {
            date_filter: self.date_filter.deep_view(),
            input_format: self.input_format.deep_view(),
            output_format: self.output_format.deep_view(),
            status: self.status.deep_view(),
        }
    }
}

/// How many seconds a date filter looks back: a day for `today`, seven for
/// `week`, thirty for `month`; any other filter looks back without end.
pub open spec fn look_back(date_filter: Option<Seq<char>>) -> Option<int> {
    if date_filter == Some("today"@) {
        Some(86400int)
    } else if date_filter == Some("week"@) {
        Some(7 * 86400int)
    } else if date_filter == Some("month"@) {
        Some(30 * 86400int)
    } else {
        None
    }
}

/// The earliest creation time that a date filter lets through at `now`:
/// nothing where the filter looks back without end, and no instant of the
/// calendar where the look-back leaves the calendar.
pub open spec fn history_cutoff(date_filter: Option<Seq<char>>, now: Timestamp) -> Option<
    Option<Seq<char>>,
> {
    match look_back(date_filter) {
        None => Some(None),
        Some(seconds) => match now.text_at(-seconds) {
            Some(t) => Some(Some(t)),
            None => None,
        },
    }
}

/// Whether a format filter lets a format through: an absent or empty filter
/// lets every format through.
pub open spec fn format_passes(filter: Option<Seq<char>>, format: Seq<char>) -> bool {
    match filter {
        Some(f) => f.len() == 0 || format == f,
        None => true,
    }
}

/// Whether a status filter lets a status through: an absent or empty filter
/// and the filter `all` let every status through.
pub open spec fn status_passes(filter: Option<Seq<char>>, status: Seq<char>) -> bool {
    match filter {
        Some(f) => f.len() == 0 || f == "all"@ || status == f,
        None => true,
    }
}

/// Whether the history of an owner shows a record under the filters.
pub open spec fn history_shows(
    rec: JobRecordView,
    owner: Seq<char>,
    filters: Option<HistoryFiltersView>,
    cutoff: Option<Seq<char>>,
) -> bool {
    &&& rec.api_key_id == Some(owner)
    &&& filters matches Some(f) ==> {
        &&& cutoff matches Some(c) ==> !text_before(rec.created_at, c)
        &&& format_passes(f.input_format, rec.input_format)
        &&& format_passes(f.output_format, rec.output_format)
        &&& status_passes(f.status, rec.status)
    }
}

/// What the filters hold, where there are filters.
pub open spec fn filters_of(filters: Option<&HistoryFilters>) -> Option<HistoryFiltersView> {
    match filters {
        Some(f) => Some(f@),
        None => None,
    }
}

/// The date filter of the filters, if they have one.
pub open spec fn date_filter_of(filters: Option<&HistoryFilters>) -> Option<Seq<char>> {
    match filters {
        Some(f) => f@.date_filter,
        None => None,
    }
}

/// The condition under which the history of an owner shows a record.
pub open spec fn history_filter(
    owner: Seq<char>,
    filters: Option<HistoryFiltersView>,
    cutoff: Option<Seq<char>>,
) -> spec_fn(JobRecordView) -> bool {
    |rec: JobRecordView| history_shows(rec, owner, filters, cutoff)
}

/// The history items of records.
pub open spec fn items_of(records: Seq<JobRecordView>) -> Seq<ConversionHistoryItemView> {
    records.map_values(|rec: JobRecordView| item_of(rec))
}

/// The history item of a record.
pub open spec fn item_of(rec: JobRecordView) -> ConversionHistoryItemView {
    ConversionHistoryItemView {
        id: rec.id,
        input_format: rec.input_format,
        output_format: rec.output_format,
        status: rec.status,
        created_at: rec.created_at,
        completed_at: rec.completed_at,
        file_size: match rec.file_size_bytes {
            Some(n) => n,
            None => 0,
        },
        original_filename: rec.original_filename,
        drive_file_id: rec.drive_file_id,
    }
}

fn format_ok(filter: &Option<String>, format: &str) -> (r: bool)
    ensures
        r == format_passes(filter.deep_view(), format@),
{
    match filter {
        Some(f) => f.as_str().as_bytes().len() == 0 || str_eq(format, f.as_str()),
        None => true,
    }
}

fn status_ok(filter: &Option<String>, status: &str) -> (r: bool)
    ensures
        r == status_passes(filter.deep_view(), status@),
{
    match filter {
        Some(f) => f.as_str().as_bytes().len() == 0 || str_eq(f.as_str(), "all") || str_eq(
            status,
            f.as_str(),
        ),
        None => true,
    }
}

fn shows(rec: &JobRecord, owner: &str, filters: Option<&HistoryFilters>, cutoff: &Option<String>) -> (r:
    bool)
    ensures
        r == history_shows(rec@, owner@, filters_of(filters), cutoff.deep_view()),
{
    if !opt_str_eq(&rec.api_key_id, owner) {
        return false;
    }
    match filters {
        None => true,
        Some(f) => {
            let recent: bool = match cutoff {
                Some(c) => !str_before(rec.created_at.as_str(), c.as_str()),
                None => true,
            };
            recent && format_ok(&f.input_format, rec.input_format.as_str()) && format_ok(
                &f.output_format,
                rec.output_format.as_str(),
            ) && status_ok(&f.status, rec.status.as_str())
        },
    }
}

/// The history of the conversions of an owner under the filters: the jobs
/// of the owner that the filters let through, newest first, at most `limit`
/// of them. Fails where the date filter looks back beyond the calendar.
pub fn get_user_conversions_filtered(
    store: &JobStore,
    api_key_id: &str,
    limit: i64,
    filters: Option<&HistoryFilters>,
    now: &Timestamp,
) -> (r: Result<Vec<ConversionHistoryItem>, StoreError>)
    ensures
        match history_cutoff(date_filter_of(filters), *now) {
            None => r == Err::<Vec<ConversionHistoryItem>, StoreError>(StoreError::TimeOutOfRange),
            Some(cutoff) => r matches Ok(items) && items.deep_view() == items_of(
                page_of(
                    newest_first(
                        records_where(
                            store@.jobs,
                            history_filter(api_key_id@, filters_of(filters), cutoff),
                        ),
                    ),
                    limit,
                    0,
                ),
            ),
        },
{
    let days: i64 = match filters {
        Some(f) => match &f.date_filter {
            Some(d) => if str_eq(d.as_str(), "today") {
                1
            } else if str_eq(d.as_str(), "week") {
                7
            } else if str_eq(d.as_str(), "month") {
                30
            } else {
                0
            },
            None => 0,
        },
        None => 0,
    };
    proof {
        reveal_strlit("today");
        reveal_strlit("week");
        reveal_strlit("month");
        assert("today"@.len() == 5 && "week"@.len() == 4);
    }
    let cutoff: Option<String> = if days == 0 {
        None
    } else {
        match now.rfc3339_at(days, 86400, true) {
            Some(t) => Some(t),
            None => {
                return Err(StoreError::TimeOutOfRange);
            },
        }
    };
    let ghost shown = history_filter(api_key_id@, filters_of(filters), cutoff.deep_view());
    let mut sorted: Vec<JobRecord> = Vec::new();
    let mut i: usize = 0;
    while i < store.jobs.len()
        invariant
            i <= store.jobs.len(),
            shown == history_filter(api_key_id@, filters_of(filters), cutoff.deep_view()),
            sorted.deep_view() == newest_first(records_where(store@.jobs.take(i as int), shown)),
        decreases store.jobs.len() - i,
    {
        proof {
            assert(store@.jobs.take(i + 1).drop_last() =~= store@.jobs.take(i as int));
        }
        let rec = &store.jobs[i];
        if shows(rec, api_key_id, filters, &cutoff) {
            let ghost picked = records_where(store@.jobs.take(i as int), shown);
            insert_newest_first(&mut sorted, rec);
            proof {
                assert(picked.push(rec@).drop_last() =~= picked);
                assert(shown(rec@));
            }
        } else {
            assert(!shown(rec@));
        }
        i += 1;
    }
    assert(store@.jobs.take(i as int) =~= store@.jobs);
    let shown_page: Vec<JobRecord> = page(sorted, limit, 0);
    let mut items: Vec<ConversionHistoryItem> = Vec::new();
    let mut k: usize = 0;
    while k < shown_page.len()
        invariant
            k <= shown_page.len(),
            items.deep_view() == items_of(shown_page.deep_view().take(k as int)),
        decreases shown_page.len() - k,
    {
        let rec = &shown_page[k];
        let ghost before = items.deep_view();
        items.push(
            ConversionHistoryItem {
                id: rec.id.clone(),
                input_format: rec.input_format.clone(),
                output_format: rec.output_format.clone(),
                status: rec.status.clone(),
                created_at: rec.created_at.clone(),
                completed_at: clone_opt(&rec.completed_at),
                file_size: match rec.file_size_bytes {
                    Some(n) => n,
                    None => 0,
                },
                original_filename: clone_opt(&rec.original_filename),
                drive_file_id: clone_opt(&rec.drive_file_id),
            },
        );
        proof {
            let all = shown_page.deep_view();
            assert(all[k as int] == rec@);
            assert(items.deep_view() =~= before.push(item_of(rec@)));
            assert(items_of(all.take(k + 1)) =~= items_of(all.take(k as int)).push(item_of(rec@)));
        }
        k += 1;
    }
    assert(shown_page.deep_view().take(k as int) =~= shown_page.deep_view());
    Ok(items)
}

/// The history of the conversions of an owner, newest first, at most `limit`
/// of them.
pub fn get_user_conversions(store: &JobStore, api_key_id: &str, limit: i64, now: &Timestamp) -> (r:
    Vec<ConversionHistoryItem>)
    ensures
        r.deep_view() == items_of(
            page_of(
                newest_first(records_where(store@.jobs, history_filter(api_key_id@, None, None))),
                limit,
                0,
            ),
        ),
{
    match get_user_conversions_filtered(store, api_key_id, limit, None, now) {
        Ok(items) => items,
        Err(_) => Vec::new(),
    }
}

} // verus!
