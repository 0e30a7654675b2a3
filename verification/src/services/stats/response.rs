//! The statistics as a reader is sent them.

use vstd::prelude::*;
use crate::clock::Timestamp;
use crate::services::stats::formats::{is_format_tally, FormatStats};
use crate::services::stats::recent::{shows_recent, StatsQuery};
use crate::services::stats::records::{
    can_be_masked, masked, ConversionRecordView, ConversionSummary, StatsServiceInner,
};
use crate::services::stats::tally::{
    count_if, day_before, has_conversions, has_kind, hour_before, is_key_stats, tally_of,
    window_of, ApiKeyStats, TimeWindowStats, TypeStats,
};

verus! {

/// What the statistics say of all conversions in the log. The time taken is
/// given as a total: its mean is that total over `total_conversions`.
pub struct GlobalStats {
    pub total_conversions: u64,
    pub successful_conversions: u64,
    pub failed_conversions: u64,
    pub total_input_bytes: u64,
    pub total_output_bytes: u64,
    pub total_processing_time_ms: u64,
    pub by_type: TypeStats,
    pub by_format: FormatStats,
    pub last_24h: TimeWindowStats,
    pub last_hour: TimeWindowStats,
}

/// Whether `stats` are the statistics of all conversions of the log at the
/// instant `at`: the counts and totals, the counts by category and by format,
/// and the counts of the last day and of the last hour.
pub open spec fn is_global_stats(
    stats: GlobalStats,
    records: Seq<ConversionRecordView>,
    at: (i64, u32),
) -> bool {
    let all = tally_of(records, None, None);
    &&& stats.total_conversions == all.conversions
    &&& stats.successful_conversions == all.successful
    &&& stats.failed_conversions == all.failed
    &&& stats.total_input_bytes == all.input_bytes
    &&& stats.total_output_bytes == all.output_bytes
    &&& stats.total_processing_time_ms == all.processing_time_ms
    &&& stats.by_type.image == count_if(records, has_kind("image"@))
    &&& stats.by_type.document == count_if(records, has_kind("document"@))
    &&& stats.by_type.audio == count_if(records, has_kind("audio"@))
    &&& stats.by_type.video == count_if(records, has_kind("video"@))
    &&& is_format_tally(stats.by_format.input_formats.deep_view(), records, true)
    &&& is_format_tally(stats.by_format.output_formats.deep_view(), records, false)
    &&& stats.last_24h == window_of(records, day_before(at))
    &&& stats.last_hour == window_of(records, hour_before(at))
}

/// The statistics as they are sent: those of all conversions, those of the
/// key of the reader, and the recent conversions.
pub struct StatsResponse {
    pub global: GlobalStats,
    pub api_key_stats: Option<ApiKeyStats>,
    pub recent_conversions: Vec<ConversionSummary>,
    pub server_uptime_seconds: u64,
    pub generated_at: Timestamp,
}

impl StatsServiceInner {
    /// What the log says of all its conversions at the instant `now`: the
    /// counts and totals, the counts by category and by format, and the counts
    /// of the last day and of the last hour.
    pub fn get_global_stats(&self, now: &Timestamp) -> (r: GlobalStats)
        ensures
            is_global_stats(r, self.records.deep_view(), (now.secs(), now.nanos())),
    {
        let all = self.tally(None, None);
        let secs: i64 = now.timestamp();
        let nanos: u32 = now.subsec_nanos();
        let day_ago: i64 = if secs < i64::MIN + 86400 {
            i64::MIN
        } else {
            secs - 86400
        };
        let hour_ago: i64 = if secs < i64::MIN + 3600 {
            i64::MIN
        } else {
            secs - 3600
        };
        GlobalStats {
            total_conversions: all.conversions,
            successful_conversions: all.successful,
            failed_conversions: all.failed,
            total_input_bytes: all.input_bytes,
            total_output_bytes: all.output_bytes,
            total_processing_time_ms: all.processing_time_ms,
            by_type: self.type_stats(),
            by_format: self.get_format_stats(),
            last_24h: self.window_stats((day_ago, nanos)),
            last_hour: self.window_stats((hour_ago, nanos)),
        }
    }

    /// The statistics at the instant `now` for a reader with the given key:
    /// those of all conversions, those of the key where the log holds a
    /// conversion of it, and the recent conversions that the query asks for.
    pub fn get_stats_response(
        &self,
        api_key: Option<&str>,
        query: &StatsQuery,
        now: &Timestamp,
        uptime_seconds: u64,
    ) -> (r: StatsResponse)
        requires
            api_key matches Some(k) ==> can_be_masked(k@),
        ensures
            is_global_stats(r.global, self.records.deep_view(), (now.secs(), now.nanos())),
            match api_key {
                Some(k) => {
                    &&& r.api_key_stats is Some <==> has_conversions(
                        self.records.deep_view(),
                        masked(k@),
                    )
                    &&& r.api_key_stats matches Some(stats) ==> is_key_stats(
                        stats,
                        self.records.deep_view(),
                        masked(k@),
                        (now.secs(), now.nanos()),
                    )
                },
                None => r.api_key_stats is None,
            },
            shows_recent(
                r.recent_conversions@,
                self.records.deep_view(),
                query.filter(None),
                query.limit,
            ),
            r.server_uptime_seconds == uptime_seconds,
            r.generated_at.text() == now.text(),
    {
        StatsResponse {
            global: self.get_global_stats(now),
            api_key_stats: match api_key {
                Some(k) => self.get_api_key_stats(k, now),
                None => None,
            },
            recent_conversions: self.get_recent_conversions(query),
            server_uptime_seconds: uptime_seconds,
            generated_at: now.copy(),
        }
    }
}

} // verus!
