use converty::clock::Timestamp;
use converty::db::api_keys::ApiKeyRole;
use converty::models::auth::AuthInfo;
use converty::routes::stats::{get_guest_stats, get_stats};
use converty::services::stats::{
    default_limit, ConversionSummary, ConversionTracker, StatsQuery, StatsServiceInner, MAX_RECORDS,
};

fn at(secs: i64) -> Timestamp {
    Timestamp::from_parts(secs, 0).unwrap()
}

const NOON: i64 = 1_700_000_000 - 1_700_000_000 % 86_400 + 12 * 3_600;

#[allow(clippy::too_many_arguments)]
fn record(
    log: &mut StatsServiceInner,
    id: &str,
    secs: i64,
    key: Option<&str>,
    kind: &str,
    input: &str,
    output: &str,
    sizes: (u64, u64),
    time: u64,
    success: bool,
) {
    log.record_conversion(
        id.to_string(),
        at(secs),
        key.map(|k| k.to_string()),
        kind,
        input,
        output,
        sizes.0,
        sizes.1,
        time,
        success,
        if success { None } else { Some("boom".to_string()) },
        Some("10.0.0.1".to_string()),
    );
}

fn sample() -> StatsServiceInner {
    let mut log = StatsServiceInner::new();
    record(&mut log, "a", NOON - 90_000, Some("key-0123456789"), "image", "PNG", "jpg", (100, 40), 10, true);
    record(&mut log, "b", NOON - 7_200, Some("key-0123456789"), "image", "png", "WebP", (200, 0), 20, false);
    record(&mut log, "c", NOON - 1_800, Some("other-key-4321"), "document", "md", "html", (50, 75), 5, true);
    record(&mut log, "d", NOON - 60, Some("key-0123456789"), "audio", "wav", "mp3", (1_000, 100), 65, true);
    record(&mut log, "e", NOON - 30, None, "image", "png", "jpg", (10, 5), 1, true);
    log
}

#[test]
fn test_record_masks_key_and_lowers_formats() {
    let log = sample();
    assert_eq!(log.records.len(), 5);
    let first = &log.records[0];
    assert_eq!(first.id, "a");
    assert_eq!(first.api_key.as_deref(), Some("key-...6789"));
    assert_eq!(first.input_format, "png");
    assert_eq!(first.output_format, "jpg");
    assert_eq!(first.conversion_type, "image");
    assert_eq!(first.timestamp.timestamp(), NOON - 90_000);
    assert_eq!(log.records[1].output_format, "webp");
    assert_eq!(log.records[1].error.as_deref(), Some("boom"));
    assert_eq!(log.records[4].api_key, None);
    assert_eq!(log.records[4].client_ip.as_deref(), Some("10.0.0.1"));
}

#[test]
fn test_record_masks_short_key_whole() {
    let mut log = StatsServiceInner::new();
    record(&mut log, "s", NOON, Some("12345678"), "image", "png", "jpg", (1, 1), 1, true);
    assert_eq!(log.records[0].api_key.as_deref(), Some("****"));
}

#[test]
fn test_log_drops_oldest_beyond_bound() {
    assert_eq!(MAX_RECORDS, 10_000);
    let mut log = StatsServiceInner::new();
    for i in 0..MAX_RECORDS + 2 {
        record(&mut log, &i.to_string(), NOON + i as i64, None, "image", "png", "jpg", (1, 1), 1, true);
    }
    assert_eq!(log.records.len(), MAX_RECORDS);
    assert_eq!(log.records[0].id, "2");
    assert_eq!(log.records[MAX_RECORDS - 1].id, (MAX_RECORDS + 1).to_string());
}

#[test]
fn test_tally_of_everything() {
    let t = sample().tally(None, None);
    assert_eq!(t.conversions, 5);
    assert_eq!(t.successful, 4);
    assert_eq!(t.failed, 1);
    assert_eq!(t.input_bytes, 1_360);
    assert_eq!(t.output_bytes, 220);
    assert_eq!(t.processing_time_ms, 101);
}

#[test]
fn test_tally_by_key_and_instant() {
    let log = sample();
    let t = log.tally(Some("key-...6789"), None);
    assert_eq!((t.conversions, t.successful, t.failed), (3, 2, 1));
    assert_eq!((t.input_bytes, t.output_bytes, t.processing_time_ms), (1_300, 140, 95));
    let t = log.tally(Some("key-...6789"), Some((NOON - 7_200, 0)));
    assert_eq!((t.conversions, t.successful, t.failed), (1, 1, 0));
    let t = log.tally(None, Some((NOON - 7_201, 999_999_999)));
    assert_eq!(t.conversions, 4);
    let t = log.tally(Some("nobody"), None);
    assert_eq!((t.conversions, t.input_bytes), (0, 0));
}

#[test]
fn test_tally_total_stops_at_largest() {
    let mut log = StatsServiceInner::new();
    record(&mut log, "x", NOON, None, "image", "png", "jpg", (u64::MAX, 1), 1, true);
    record(&mut log, "y", NOON, None, "image", "png", "jpg", (2, 1), 1, true);
    let t = log.tally(None, None);
    assert_eq!(t.input_bytes, u64::MAX);
    assert_eq!(t.output_bytes, 2);
}

#[test]
fn test_type_stats() {
    let t = sample().type_stats();
    assert_eq!((t.image, t.document, t.audio, t.video), (3, 1, 1, 0));
}

#[test]
fn test_window_stats() {
    let w = sample().window_stats((NOON - 3_600, 0));
    assert_eq!((w.conversions, w.successful, w.failed, w.bytes_processed), (3, 3, 0, 1_060));
    let w = sample().window_stats((NOON - 86_400, 0));
    assert_eq!((w.conversions, w.successful, w.failed, w.bytes_processed), (4, 3, 1, 1_260));
}

#[test]
fn test_format_stats_most_frequent_first() {
    let f = sample().get_format_stats();
    let input: Vec<(&str, u64)> = f.input_formats.iter().map(|c| (c.format.as_str(), c.count)).collect();
    assert_eq!(input[0], ("png", 3));
    assert_eq!(input.len(), 3);
    assert!(input.contains(&("md", 1)));
    assert!(input.contains(&("wav", 1)));
    let output: Vec<(&str, u64)> = f.output_formats.iter().map(|c| (c.format.as_str(), c.count)).collect();
    assert_eq!(output[0], ("jpg", 2));
    assert_eq!(output.len(), 4);
    assert!(output.contains(&("webp", 1)));
    assert!(output.contains(&("html", 1)));
    assert!(output.contains(&("mp3", 1)));
}

#[test]
fn test_format_stats_orders_by_count() {
    let mut log = StatsServiceInner::new();
    for (id, input) in [("1", "gif"), ("2", "bmp"), ("3", "bmp"), ("4", "png"), ("5", "png"), ("6", "png")] {
        record(&mut log, id, NOON, None, "image", input, "jpg", (1, 1), 1, true);
    }
    let f = log.get_format_stats();
    let input: Vec<(&str, u64)> = f.input_formats.iter().map(|c| (c.format.as_str(), c.count)).collect();
    assert_eq!(input, vec![("png", 3), ("bmp", 2), ("gif", 1)]);
    let output: Vec<(&str, u64)> = f.output_formats.iter().map(|c| (c.format.as_str(), c.count)).collect();
    assert_eq!(output, vec![("jpg", 6)]);
    assert!(StatsServiceInner::new().get_format_stats().input_formats.is_empty());
}

#[test]
fn test_global_stats() {
    let g = sample().get_global_stats(&at(NOON));
    assert_eq!(g.total_conversions, 5);
    assert_eq!(g.successful_conversions, 4);
    assert_eq!(g.failed_conversions, 1);
    assert_eq!(g.total_input_bytes, 1_360);
    assert_eq!(g.total_output_bytes, 220);
    assert_eq!(g.total_processing_time_ms, 101);
    assert_eq!((g.by_type.image, g.by_type.document, g.by_type.audio, g.by_type.video), (3, 1, 1, 0));
    assert_eq!(g.by_format.input_formats[0].format, "png");
    assert_eq!(g.last_24h.conversions, 4);
    assert_eq!(g.last_24h.failed, 1);
    assert_eq!(g.last_hour.conversions, 3);
    assert_eq!(g.last_hour.bytes_processed, 1_060);
    let empty = StatsServiceInner::new().get_global_stats(&at(NOON));
    assert_eq!(empty.total_conversions, 0);
    assert_eq!(empty.last_hour.conversions, 0);
}

#[test]
fn test_api_key_stats() {
    let log = sample();
    let s = log.get_api_key_stats("key-0123456789", &at(NOON)).unwrap();
    assert_eq!(s.api_key, "key-...6789");
    assert_eq!(s.total_conversions, 3);
    assert_eq!(s.successful_conversions, 2);
    assert_eq!(s.failed_conversions, 1);
    assert_eq!(s.total_input_bytes, 1_300);
    assert_eq!(s.total_output_bytes, 140);
    assert_eq!(s.first_used.timestamp(), NOON - 90_000);
    assert_eq!(s.last_used.timestamp(), NOON - 60);
    assert_eq!(s.conversions_today, 2);
    assert_eq!(s.conversions_this_hour, 1);
    assert!(log.get_api_key_stats("unknown-key-0000", &at(NOON)).is_none());
}

#[test]
fn test_api_key_stats_midnight_is_not_today() {
    let mut log = StatsServiceInner::new();
    let midnight = NOON - 12 * 3_600;
    record(&mut log, "m", midnight, Some("key-0123456789"), "image", "png", "jpg", (1, 1), 1, true);
    record(&mut log, "n", midnight + 1, Some("key-0123456789"), "image", "png", "jpg", (1, 1), 1, true);
    let s = log.get_api_key_stats("key-0123456789", &at(NOON)).unwrap();
    assert_eq!(s.conversions_today, 1);
    assert_eq!(s.conversions_this_hour, 0);
}

fn query(kind: Option<&str>, input: Option<&str>, output: Option<&str>, limit: usize, only_failed: bool) -> StatsQuery {
    StatsQuery {
        conversion_type: kind.map(|s| s.to_string()),
        input_format: input.map(|s| s.to_string()),
        output_format: output.map(|s| s.to_string()),
        limit,
        only_failed,
    }
}

fn ids(list: &[ConversionSummary]) -> Vec<&str> {
    list.iter().map(|s| s.id.as_str()).collect()
}

#[test]
fn test_recent_conversions_newest_first() {
    let log = sample();
    assert_eq!(default_limit(), 20);
    let all = log.get_recent_conversions(&query(None, None, None, default_limit(), false));
    assert_eq!(ids(&all), vec!["e", "d", "c", "b", "a"]);
    assert_eq!(all[1].input_format, "wav");
    assert_eq!(all[1].output_size_bytes, 100);
    assert_eq!(all[1].processing_time_ms, 65);
    assert!(all[1].success);
    assert_eq!(all[1].timestamp.timestamp(), NOON - 60);
    let two = log.get_recent_conversions(&query(None, None, None, 2, false));
    assert_eq!(ids(&two), vec!["e", "d"]);
    assert!(log.get_recent_conversions(&query(None, None, None, 0, false)).is_empty());
}

#[test]
fn test_recent_conversions_filters() {
    let log = sample();
    let images = log.get_recent_conversions(&query(Some("image"), None, None, 20, false));
    assert_eq!(ids(&images), vec!["e", "b", "a"]);
    let png_jpg = log.get_recent_conversions(&query(None, Some("png"), Some("jpg"), 20, false));
    assert_eq!(ids(&png_jpg), vec!["e", "a"]);
    let failed = log.get_recent_conversions(&query(None, None, None, 20, true));
    assert_eq!(ids(&failed), vec!["b"]);
    let none = log.get_recent_conversions(&query(Some("video"), None, None, 20, false));
    assert!(none.is_empty());
}

#[test]
fn test_recent_conversions_out_of_order_log() {
    let mut log = StatsServiceInner::new();
    record(&mut log, "late", NOON, None, "image", "png", "jpg", (1, 1), 1, true);
    record(&mut log, "early", NOON - 10, None, "image", "png", "jpg", (1, 1), 1, true);
    record(&mut log, "same", NOON, None, "image", "png", "jpg", (1, 1), 1, true);
    let all = log.get_recent_conversions(&query(None, None, None, 20, false));
    assert_eq!(ids(&all), vec!["late", "same", "early"]);
}

#[test]
fn test_summary_of_record() {
    let log = sample();
    let s = ConversionSummary::from_record(&log.records[2]);
    assert_eq!(s.id, "c");
    assert_eq!(s.conversion_type, "document");
    assert_eq!(s.input_format, "md");
    assert_eq!(s.output_format, "html");
    assert_eq!((s.input_size_bytes, s.output_size_bytes, s.processing_time_ms), (50, 75, 5));
    assert!(s.success);
    assert_eq!(s.timestamp.timestamp(), NOON - 1_800);
}

fn tracker(started: Timestamp) -> ConversionTracker {
    ConversionTracker::new(
        started,
        Some("key-0123456789".to_string()),
        "image",
        "PNG",
        "Jpg",
        2_048,
        Some("10.0.0.9".to_string()),
    )
}

#[test]
fn test_tracker_elapsed() {
    let t = tracker(Timestamp::from_parts(NOON, 900_000_000).unwrap());
    assert_eq!(t.elapsed_ms(&Timestamp::from_parts(NOON + 2, 100_000_000).unwrap()), 1_200);
    assert_eq!(t.elapsed_ms(&Timestamp::from_parts(NOON, 900_999_999).unwrap()), 0);
    assert_eq!(t.elapsed_ms(&Timestamp::from_parts(NOON, 901_000_000).unwrap()), 1);
    assert_eq!(t.elapsed_ms(&at(NOON)), 0);
    assert_eq!(t.elapsed_ms(&at(NOON - 50)), 0);
    assert_eq!(t.elapsed_ms(&at(NOON + 3_600)), 3_599_100);
}

#[test]
fn test_tracker_logs_success() {
    let mut log = StatsServiceInner::new();
    tracker(at(NOON)).finish_success(&mut log, "id-1".to_string(), at(NOON + 3), 512);
    assert_eq!(log.records.len(), 1);
    let rec = &log.records[0];
    assert_eq!(rec.id, "id-1");
    assert_eq!(rec.timestamp.timestamp(), NOON + 3);
    assert_eq!(rec.api_key.as_deref(), Some("key-...6789"));
    assert_eq!(rec.conversion_type, "image");
    assert_eq!(rec.input_format, "png");
    assert_eq!(rec.output_format, "jpg");
    assert_eq!((rec.input_size_bytes, rec.output_size_bytes), (2_048, 512));
    assert_eq!(rec.processing_time_ms, 3_000);
    assert!(rec.success);
    assert_eq!(rec.error, None);
    assert_eq!(rec.client_ip.as_deref(), Some("10.0.0.9"));
}

#[test]
fn test_tracker_logs_failure() {
    let mut log = StatsServiceInner::new();
    tracker(at(NOON)).finish_error(&mut log, "id-2".to_string(), at(NOON + 1), "no codec");
    let rec = &log.records[0];
    assert_eq!(rec.id, "id-2");
    assert_eq!(rec.output_size_bytes, 0);
    assert_eq!(rec.processing_time_ms, 1_000);
    assert!(!rec.success);
    assert_eq!(rec.error.as_deref(), Some("no codec"));
    let t = log.tally(None, None);
    assert_eq!((t.conversions, t.successful, t.failed), (1, 0, 1));
}

fn reader(key: Option<&str>, is_guest: bool, role: ApiKeyRole) -> AuthInfo {
    AuthInfo { api_key_id: key.map(|k| k.to_string()), is_guest, role, client_ip: None }
}

#[test]
fn test_recent_conversions_of_a_key() {
    let log = sample();
    let own = log.recent_conversions_of(&query(None, None, None, 20, false), Some("key-...6789"));
    assert_eq!(ids(&own), vec!["d", "b", "a"]);
    let failed = log.recent_conversions_of(&query(None, None, None, 20, true), Some("key-...6789"));
    assert_eq!(ids(&failed), vec!["b"]);
    let one = log.recent_conversions_of(&query(Some("image"), None, None, 1, false), Some("key-...6789"));
    assert_eq!(ids(&one), vec!["b"]);
    let none = log.recent_conversions_of(&query(None, None, None, 20, false), Some("key-0123456789"));
    assert!(none.is_empty());
    let all = log.recent_conversions_of(&query(None, None, None, 20, false), None);
    assert_eq!(ids(&all), vec!["e", "d", "c", "b", "a"]);
}

#[test]
fn test_stats_response() {
    let log = sample();
    let r = log.get_stats_response(Some("key-0123456789"), &query(None, None, None, 2, false), &at(NOON), 77);
    assert_eq!(r.global.total_conversions, 5);
    assert_eq!(r.api_key_stats.unwrap().total_conversions, 3);
    assert_eq!(ids(&r.recent_conversions), vec!["e", "d"]);
    assert_eq!(r.server_uptime_seconds, 77);
    assert_eq!(r.generated_at.timestamp(), NOON);
    let r = log.get_stats_response(None, &query(None, None, None, 2, false), &at(NOON), 0);
    assert!(r.api_key_stats.is_none());
    let r = log.get_stats_response(Some("stranger-key-00"), &query(None, None, None, 2, false), &at(NOON), 0);
    assert!(r.api_key_stats.is_none());
}

#[test]
fn test_stats_for_a_guest() {
    let log = sample();
    let r = get_stats(&log, &reader(Some("key-0123456789"), true, ApiKeyRole::User), &query(None, None, None, 20, false), &at(NOON));
    assert_eq!(r.global.total_conversions, 5);
    assert!(r.api_key_stats.is_none());
    assert!(r.recent_conversions.is_empty());
    assert_eq!(r.server_uptime_seconds, 0);
    assert_eq!(r.generated_at.timestamp(), NOON);
    let g = get_guest_stats(&log, &at(NOON));
    assert_eq!(g.global.successful_conversions, 4);
    assert!(g.api_key_stats.is_none());
    assert!(g.recent_conversions.is_empty());
}

#[test]
fn test_stats_for_a_user() {
    let log = sample();
    let r = get_stats(&log, &reader(Some("key-0123456789"), false, ApiKeyRole::User), &query(None, None, None, 20, false), &at(NOON));
    assert_eq!(r.global.total_conversions, 5);
    let own = r.api_key_stats.unwrap();
    assert_eq!(own.api_key, "key-...6789");
    assert_eq!(own.total_conversions, 3);
    assert_eq!(ids(&r.recent_conversions), vec!["d", "b", "a"]);
    let r = get_stats(&log, &reader(None, false, ApiKeyRole::User), &query(None, None, None, 20, false), &at(NOON));
    assert!(r.api_key_stats.is_none());
    assert!(r.recent_conversions.is_empty());
}

#[test]
fn test_stats_for_an_administrator() {
    let log = sample();
    let r = get_stats(&log, &reader(Some("other-key-4321"), false, ApiKeyRole::Admin), &query(None, None, None, 20, false), &at(NOON));
    assert_eq!(r.api_key_stats.unwrap().total_conversions, 1);
    assert_eq!(ids(&r.recent_conversions), vec!["e", "d", "c", "b", "a"]);
    let r = get_stats(&log, &reader(None, false, ApiKeyRole::Admin), &query(Some("image"), None, None, 2, false), &at(NOON));
    assert!(r.api_key_stats.is_none());
    assert_eq!(ids(&r.recent_conversions), vec!["e", "b"]);
}
