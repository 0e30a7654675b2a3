//! Statistics of the direct conversions: a bounded log of records, and the
//! counts and totals that are read from it.

pub mod records;
pub mod tally;
pub mod formats;
pub mod recent;
pub mod response;
pub mod tracker;

pub use self::records::{
    ConversionRecord, ConversionRecordView, ConversionSummary, MAX_RECORDS, StatsServiceInner,
    can_be_masked, can_mask, hidden_key, mask_api_key, masked, masked_key, with_record,
};
pub use self::tally::{
    ApiKeyStats, Tally, TimeWindowStats, TypeStats, clamped, count_if, day_before, day_start,
    has_conversions, has_kind, hour_before, input_size, is_first_use, is_key_stats, is_last_use,
    later, lemma_count_exists, lemma_counts, output_size, selected, selection, successes, sum_if,
    tally_of, time_taken, window_of,
};
pub use self::formats::{
    FormatCount, FormatCountView, FormatStats, format_of, has_format, is_format_tally,
    lists_format, occurs, tallies_formats,
};
pub use self::recent::{
    StatsQuery, default_limit, lists_records, place_recent, query_filter, query_shows,
    recent_positions, shows_recent,
};
pub use self::response::{
    GlobalStats, StatsResponse, is_global_stats,
};
pub use self::tracker::{
    ConversionTracker, elapsed_millis,
};
