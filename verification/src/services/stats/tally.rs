//! Counts and totals over the log: of all conversions, of a category, of a
//! window of time, and of a key.

use vstd::prelude::*;
use crate::clock::Timestamp;
use crate::services::stats::records::{
    can_be_masked, mask_api_key, masked, ConversionRecordView, StatsServiceInner,
};
use crate::text::{opt_str_eq, str_eq};

verus! {

/// The counts and totals of a selection of records. A total that a `u64`
/// cannot hold is given as the largest `u64`.
#[derive(Clone, Copy, Debug, Default)]
pub struct Tally {
    pub conversions: u64,
    pub successful: u64,
    pub failed: u64,
    pub input_bytes: u64,
    pub output_bytes: u64,
    pub processing_time_ms: u64,
}

/// Whether the instant `a` is later than `b`.
pub open spec fn later(a: (i64, u32), b: (i64, u32)) -> bool {
    a.0 > b.0 || (a.0 == b.0 && a.1 > b.1)
}

/// Whether a selection holds a record: the record has the key, where a key
/// is given, and is later than the instant, where an instant is given.
pub open spec fn selected(
    rec: ConversionRecordView,
    key: Option<Seq<char>>,
    since: Option<(i64, u32)>,
) -> bool {
    &&& key matches Some(k) ==> rec.api_key == Some(k)
    &&& since matches Some(t) ==> later(rec.at, t)
}

/// How many of the records satisfy `pick`.
pub open spec fn count_if(
    records: Seq<ConversionRecordView>,
    pick: spec_fn(ConversionRecordView) -> bool,
) -> nat
    decreases records.len(),
{
    if records.len() == 0 {
        0
    } else {
        count_if(records.drop_last(), pick) + if pick(records.last()) {
            1nat
        } else {
            0nat
        }
    }
}

/// The sum of `value` over the records that satisfy `pick`.
pub open spec fn sum_if(
    records: Seq<ConversionRecordView>,
    pick: spec_fn(ConversionRecordView) -> bool,
    value: spec_fn(ConversionRecordView) -> u64,
) -> nat
    decreases records.len(),
{
    if records.len() == 0 {
        0
    } else {
        sum_if(records.drop_last(), pick, value) + if pick(records.last()) {
            value(records.last()) as nat
        } else {
            0nat
        }
    }
}

/// A total as a `u64` gives it: itself, or the largest `u64` where it is
/// larger.
pub open spec fn clamped(n: nat) -> u64 {
    if n > u64::MAX {
        u64::MAX
    } else {
        n as u64
    }
}

/// The condition of a selection.
pub open spec fn selection(key: Option<Seq<char>>, since: Option<(i64, u32)>) -> spec_fn(
    ConversionRecordView,
) -> bool {
    |rec: ConversionRecordView| selected(rec, key, since)
}

/// The condition of the successful records of a selection.
pub open spec fn successes(key: Option<Seq<char>>, since: Option<(i64, u32)>) -> spec_fn(
    ConversionRecordView,
) -> bool {
    |rec: ConversionRecordView| selected(rec, key, since) && rec.success
}

/// The size of the input of a record.
pub open spec fn input_size() -> spec_fn(ConversionRecordView) -> u64 {
    |rec: ConversionRecordView| rec.input_size_bytes
}

/// The size of the output of a record.
pub open spec fn output_size() -> spec_fn(ConversionRecordView) -> u64 {
    |rec: ConversionRecordView| rec.output_size_bytes
}

/// The time that a record took.
pub open spec fn time_taken() -> spec_fn(ConversionRecordView) -> u64 {
    |rec: ConversionRecordView| rec.processing_time_ms
}

/// The tally of a selection of records.
pub open spec fn tally_of(
    records: Seq<ConversionRecordView>,
    key: Option<Seq<char>>,
    since: Option<(i64, u32)>,
) -> Tally {
    let all = count_if(records, selection(key, since));
    let good = count_if(records, successes(key, since));
    Tally {
        conversions: clamped(all),
        successful: clamped(good),
        failed: clamped((all - good) as nat),
        input_bytes: clamped(sum_if(records, selection(key, since), input_size())),
        output_bytes: clamped(sum_if(records, selection(key, since), output_size())),
        processing_time_ms: clamped(sum_if(records, selection(key, since), time_taken())),
    }
}

/// A selection holds no more successful records than records, and no more
/// records than there are.
pub proof fn lemma_counts(
    records: Seq<ConversionRecordView>,
    key: Option<Seq<char>>,
    since: Option<(i64, u32)>,
)
    ensures
        count_if(records, successes(key, since)) <= count_if(records, selection(key, since))
            <= records.len(),
    decreases records.len(),
{
    if records.len() > 0 {
        lemma_counts(records.drop_last(), key, since);
    }
}

/// A selection counts a record exactly when the log holds one that it
/// selects.
pub proof fn lemma_count_exists(
    records: Seq<ConversionRecordView>,
    pick: spec_fn(ConversionRecordView) -> bool,
)
    ensures
        count_if(records, pick) > 0 <==> exists|j: int|
            0 <= j < records.len() && pick(#[trigger] records[j]),
    decreases records.len(),
{
    if records.len() > 0 {
        let rest = records.drop_last();
        lemma_count_exists(rest, pick);
        if count_if(rest, pick) > 0 {
            let j = choose|j: int| 0 <= j < rest.len() && pick(#[trigger] rest[j]);
            assert(records[j] == rest[j]);
        }
        if pick(records.last()) {
            assert(records[records.len() - 1] == records.last());
        }
        if exists|j: int| 0 <= j < records.len() && pick(#[trigger] records[j]) {
            let j = choose|j: int| 0 <= j < records.len() && pick(#[trigger] records[j]);
            if j < rest.len() {
                assert(rest[j] == records[j]);
            }
        }
    }
}

fn add_clamped(total: u64, value: u64) -> (r: u64)
    ensures
        forall|n: nat| total == clamped(n) ==> r == #[trigger] clamped((n + value) as nat),
{
    if total > u64::MAX - value {
        u64::MAX
    } else {
        total + value
    }
}

/// How many conversions there were of each category.
#[derive(Clone, Copy, Debug, Default)]
pub struct TypeStats {
    pub image: u64,
    pub document: u64,
    pub audio: u64,
    pub video: u64,
}

/// The condition of the records of a category.
pub open spec fn has_kind(kind: Seq<char>) -> spec_fn(ConversionRecordView) -> bool {
    |rec: ConversionRecordView| rec.conversion_type == kind
}

/// The conversions of a stretch of time.
#[derive(Clone, Copy, Debug, Default)]
pub struct TimeWindowStats {
    pub conversions: u64,
    pub successful: u64,
    pub failed: u64,
    pub bytes_processed: u64,
}

/// The counts of the records that are later than an instant.
pub open spec fn window_of(records: Seq<ConversionRecordView>, since: (i64, u32)) -> TimeWindowStats {
    let t = tally_of(records, None, Some(since));
    TimeWindowStats {
        conversions: t.conversions,
        successful: t.successful,
        failed: t.failed,
        bytes_processed: t.input_bytes,
    }
}

/// The instant of the midnight before an instant, in UTC; the earliest
/// instant where that cannot be written.
pub open spec fn day_start(at: (i64, u32)) -> (i64, u32) {
    let start = at.0 - at.0 % 86400;
    if start < i64::MIN {
        (i64::MIN, 0u32)
    } else {
        (start as i64, 0u32)
    }
}

/// The instant an hour before an instant; the earliest instant where that
/// cannot be written.
pub open spec fn hour_before(at: (i64, u32)) -> (i64, u32) {
    if at.0 < i64::MIN + 3600 {
        (i64::MIN, at.1)
    } else {
        ((at.0 - 3600) as i64, at.1)
    }
}

/// The instant a day before an instant; the earliest instant where that
/// cannot be written.
pub open spec fn day_before(at: (i64, u32)) -> (i64, u32) {
    if at.0 < i64::MIN + 86400 {
        (i64::MIN, at.1)
    } else {
        ((at.0 - 86400) as i64, at.1)
    }
}

/// Whether `at` is the instant of the first conversion of a key: a record
/// of the key has it, and none is earlier.
pub open spec fn is_first_use(
    records: Seq<ConversionRecordView>,
    key: Seq<char>,
    at: (i64, u32),
) -> bool {
    &&& exists|j: int| 0 <= j < records.len() && (#[trigger] records[j]).api_key == Some(key)
        && records[j].at == at
    &&& forall|j: int|
        0 <= j < records.len() && (#[trigger] records[j]).api_key == Some(key) ==> !later(
            at,
            records[j].at,
        )
}

/// Whether `at` is the instant of the last conversion of a key: a record of
/// the key has it, and none is later.
pub open spec fn is_last_use(
    records: Seq<ConversionRecordView>,
    key: Seq<char>,
    at: (i64, u32),
) -> bool {
    &&& exists|j: int| 0 <= j < records.len() && (#[trigger] records[j]).api_key == Some(key)
        && records[j].at == at
    &&& forall|j: int|
        0 <= j < records.len() && (#[trigger] records[j]).api_key == Some(key) ==> !later(
            records[j].at,
            at,
        )
}

/// Whether the log holds a conversion of the key, given as the log holds it.
pub open spec fn has_conversions(records: Seq<ConversionRecordView>, key: Seq<char>) -> bool {
    tally_of(records, Some(key), None).conversions > 0
}

/// What the statistics say of a key.
pub struct ApiKeyStats {
    pub api_key: String,
    pub total_conversions: u64,
    pub successful_conversions: u64,
    pub failed_conversions: u64,
    pub total_input_bytes: u64,
    pub total_output_bytes: u64,
    pub first_used: Timestamp,
    pub last_used: Timestamp,
    pub conversions_today: u64,
    pub conversions_this_hour: u64,
}

/// Whether `stats` are the statistics of a key, given as the log holds it, at
/// the instant `at`: the counts and totals of its conversions, the instants of
/// the first and the last of them, and how many of them were made since the
/// last midnight in UTC and within the last hour.
pub open spec fn is_key_stats(
    stats: ApiKeyStats,
    records: Seq<ConversionRecordView>,
    key: Seq<char>,
    at: (i64, u32),
) -> bool {
    let all = tally_of(records, Some(key), None);
    &&& stats.api_key@ == key
    &&& stats.total_conversions == all.conversions
    &&& stats.successful_conversions == all.successful
    &&& stats.failed_conversions == all.failed
    &&& stats.total_input_bytes == all.input_bytes
    &&& stats.total_output_bytes == all.output_bytes
    &&& stats.conversions_today == tally_of(records, Some(key), Some(day_start(at))).conversions
    &&& stats.conversions_this_hour == tally_of(
        records,
        Some(key),
        Some(hour_before(at)),
    ).conversions
    &&& is_first_use(records, key, (stats.first_used.secs(), stats.first_used.nanos()))
    &&& is_last_use(records, key, (stats.last_used.secs(), stats.last_used.nanos()))
}

pub(crate) fn is_later(a: &Timestamp, b: &Timestamp) -> (r: bool)
    ensures
        r == later((a.secs(), a.nanos()), (b.secs(), b.nanos())),
{
    a.timestamp() > b.timestamp() || (a.timestamp() == b.timestamp() && a.subsec_nanos()
        > b.subsec_nanos())
}

impl StatsServiceInner {
    /// The counts and totals of the records that have the key, where one is
    /// given, and are later than the instant, where one is given as seconds
    /// and nanoseconds.
    pub fn tally(&self, key: Option<&str>, since: Option<(i64, u32)>) -> (r: Tally)
        ensures
            r == tally_of(self.records.deep_view(), key.deep_view(), since),
    {
        let ghost k = key.deep_view();
        let ghost t = since;
        let ghost all = self.records.deep_view();
        let mut conversions: u64 = 0;
        let mut successful: u64 = 0;
        let mut input_bytes: u64 = 0;
        let mut output_bytes: u64 = 0;
        let mut time: u64 = 0;
        let mut i: usize = 0;
        while i < self.records.len()
            invariant
                i <= self.records.len(),
                all == self.records.deep_view(),
                k == key.deep_view(),
                t == since,
                conversions == count_if(all.take(i as int), selection(k, t)),
                successful == count_if(all.take(i as int), successes(k, t)),
                successful <= conversions <= i,
                input_bytes == clamped(sum_if(all.take(i as int), selection(k, t), input_size())),
                output_bytes == clamped(sum_if(all.take(i as int), selection(k, t), output_size())),
                time == clamped(sum_if(all.take(i as int), selection(k, t), time_taken())),
            decreases self.records.len() - i,
        {
            let rec = &self.records[i];
            proof {
                assert(all.take(i + 1).drop_last() =~= all.take(i as int));
                assert(all.take(i + 1).last() == rec@);
            }
            let by_key: bool = match key {
                Some(k) => opt_str_eq(&rec.api_key, k),
                None => true,
            };
            let by_time: bool = match since {
                Some(t) => rec.timestamp.timestamp() > t.0 || (rec.timestamp.timestamp() == t.0
                    && rec.timestamp.subsec_nanos() > t.1),
                None => true,
            };
            if by_key && by_time {
                conversions += 1;
                if rec.success {
                    successful += 1;
                }
                input_bytes = add_clamped(input_bytes, rec.input_size_bytes);
                output_bytes = add_clamped(output_bytes, rec.output_size_bytes);
                time = add_clamped(time, rec.processing_time_ms);
            }
            i += 1;
        }
        proof {
            assert(all.take(i as int) =~= all);
        }
        Tally {
            conversions,
            successful,
            failed: conversions - successful,
            input_bytes,
            output_bytes,
            processing_time_ms: time,
        }
    }

    /// How many conversions the log holds of each category.
    pub fn type_stats(&self) -> (r: TypeStats)
        ensures
            r.image == count_if(self.records.deep_view(), has_kind("image"@)),
            r.document == count_if(self.records.deep_view(), has_kind("document"@)),
            r.audio == count_if(self.records.deep_view(), has_kind("audio"@)),
            r.video == count_if(self.records.deep_view(), has_kind("video"@)),
    {
        let ghost all = self.records.deep_view();
        let ghost is_image = has_kind("image"@);
        let ghost is_document = has_kind("document"@);
        let ghost is_audio = has_kind("audio"@);
        let ghost is_video = has_kind("video"@);
        let mut stats = TypeStats { image: 0, document: 0, audio: 0, video: 0 };
        let mut i: usize = 0;
        while i < self.records.len()
            invariant
                i <= self.records.len(),
                all == self.records.deep_view(),
                is_image == has_kind("image"@),
                is_document == has_kind("document"@),
                is_audio == has_kind("audio"@),
                is_video == has_kind("video"@),
                stats.image == count_if(all.take(i as int), is_image),
                stats.document == count_if(all.take(i as int), is_document),
                stats.audio == count_if(all.take(i as int), is_audio),
                stats.video == count_if(all.take(i as int), is_video),
                stats.image <= i && stats.document <= i && stats.audio <= i && stats.video <= i,
            decreases self.records.len() - i,
        {
            let rec = &self.records[i];
            proof {
                assert(all.take(i + 1).drop_last() =~= all.take(i as int));
                assert(all.take(i + 1).last() == rec@);
            }
            let kind: &str = rec.conversion_type.as_str();
            if str_eq(kind, "image") {
                stats.image += 1;
            }
            if str_eq(kind, "document") {
                stats.document += 1;
            }
            if str_eq(kind, "audio") {
                stats.audio += 1;
            }
            if str_eq(kind, "video") {
                stats.video += 1;
            }
            i += 1;
        }
        proof {
            assert(all.take(i as int) =~= all);
        }
        stats
    }

    /// The conversions that are later than an instant, given as seconds and
    /// nanoseconds.
    pub fn window_stats(&self, since: (i64, u32)) -> (r: TimeWindowStats)
        ensures
            r == window_of(self.records.deep_view(), since),
    {
        let t = self.tally(None, Some(since));
        TimeWindowStats {
            conversions: t.conversions,
            successful: t.successful,
            failed: t.failed,
            bytes_processed: t.input_bytes,
        }
    }

    /// What the log says of a key: nothing where it holds no conversion of the
    /// key, otherwise the counts and totals of the conversions of the key, the
    /// instants of the first and the last of them, and how many of them were
    /// made since the last midnight in UTC and within the last hour.
    pub fn get_api_key_stats(&self, api_key: &str, now: &Timestamp) -> (r: Option<ApiKeyStats>)
        requires
            can_be_masked(api_key@),
        ensures
            r is Some <==> has_conversions(self.records.deep_view(), masked(api_key@)),
            r matches Some(stats) ==> is_key_stats(
                stats,
                self.records.deep_view(),
                masked(api_key@),
                (now.secs(), now.nanos()),
            ),
    {
        let key: String = mask_api_key(api_key);
        let all = self.tally(Some(key.as_str()), None);
        if all.conversions == 0 {
            return None;
        }
        let ghost records = self.records.deep_view();
        let mut first: Option<usize> = None;
        let mut last: Option<usize> = None;
        let mut i: usize = 0;
        while i < self.records.len()
            invariant
                i <= self.records.len(),
                records == self.records.deep_view(),
                key@ == masked(api_key@),
                first is Some <==> last is Some,
                first is None ==> forall|j: int|
                    0 <= j < i ==> (#[trigger] records[j]).api_key != Some(key@),
                first matches Some(f) ==> f < i && records[f as int].api_key == Some(key@)
                    && forall|j: int|
                    0 <= j < i && (#[trigger] records[j]).api_key == Some(key@) ==> !later(
                        records[f as int].at,
                        records[j].at,
                    ),
                last matches Some(l) ==> l < i && records[l as int].api_key == Some(key@)
                    && forall|j: int|
                    0 <= j < i && (#[trigger] records[j]).api_key == Some(key@) ==> !later(
                        records[j].at,
                        records[l as int].at,
                    ),
            decreases self.records.len() - i,
        {
            let rec = &self.records[i];
            let ghost old_first = first;
            let ghost old_last = last;
            proof {
                assert(records[i as int] == rec@);
            }
            if opt_str_eq(&rec.api_key, key.as_str()) {
                match first {
                    Some(f) => {
                        assert(records[f as int] == self.records[f as int]@);
                        if is_later(&self.records[f].timestamp, &rec.timestamp) {
                            first = Some(i);
                        }
                    },
                    None => {
                        first = Some(i);
                    },
                }
                match last {
                    Some(l) => {
                        assert(records[l as int] == self.records[l as int]@);
                        if is_later(&rec.timestamp, &self.records[l].timestamp) {
                            last = Some(i);
                        }
                    },
                    None => {
                        last = Some(i);
                    },
                }
                proof {
                    let f = first->0 as int;
                    let l = last->0 as int;
                    assert forall|j: int|
                        0 <= j < i + 1 && (#[trigger] records[j]).api_key == Some(
                            key@,
                        ) implies !later(records[f].at, records[j].at) by {
                        if j < i {
                            if let Some(o) = old_first {
                                assert(!later(records[o as int].at, records[j].at));
                            }
                        }
                    }
                    assert forall|j: int|
                        0 <= j < i + 1 && (#[trigger] records[j]).api_key == Some(
                            key@,
                        ) implies !later(records[j].at, records[l].at) by {
                        if j < i {
                            if let Some(o) = old_last {
                                assert(!later(records[j].at, records[o as int].at));
                            }
                        }
                    }
                }
            }
            i += 1;
        }
        proof {
            lemma_count_exists(records, selection(Some(key@), None));
            if first is None {
                let j = choose|j: int|
                    0 <= j < records.len() && selection(Some(key@), None)(#[trigger] records[j]);
                assert(records[j].api_key == Some(key@));
            }
        }
        let secs: i64 = now.timestamp();
        let into_day: i64 = if secs >= 0 {
            secs % 86400
        } else {
            86399 - ((-(secs + 1)) % 86400)
        };
        let day: i64 = if secs < i64::MIN + into_day {
            i64::MIN
        } else {
            secs - into_day
        };
        let hour: i64 = if secs < i64::MIN + 3600 {
            i64::MIN
        } else {
            secs - 3600
        };
        let today = self.tally(Some(key.as_str()), Some((day, 0)));
        let this_hour = self.tally(Some(key.as_str()), Some((hour, now.subsec_nanos())));
        match (first, last) {
            (Some(f), Some(l)) => {
                proof {
                    assert(records[f as int] == self.records[f as int]@);
                    assert(records[l as int] == self.records[l as int]@);
                }
                Some(
                    ApiKeyStats {
                        api_key: key,
                        total_conversions: all.conversions,
                        successful_conversions: all.successful,
                        failed_conversions: all.failed,
                        total_input_bytes: all.input_bytes,
                        total_output_bytes: all.output_bytes,
                        first_used: self.records[f].timestamp.copy(),
                        last_used: self.records[l].timestamp.copy(),
                        conversions_today: today.conversions,
                        conversions_this_hour: this_hour.conversions,
                    },
                )
            },
            _ => None,
        }
    }
}

} // verus!
