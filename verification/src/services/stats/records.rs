//! The log of the conversions: its records, and how a record is added.

use vstd::prelude::*;
use crate::clock::Timestamp;
use crate::text::{glue3, lowercase, to_lowercase};
use vstd::utf8::{decode_utf8, encode_utf8, encode_utf8_decode_utf8, is_char_boundary};

verus! {

/// The text that stands for a key of which nothing is shown.
pub open spec fn hidden_key() -> Seq<char> {
    "****"@
}

/// A key with all but its first and last four bytes left out; a key of at
/// most eight bytes is hidden altogether.
pub open spec fn masked(key: Seq<char>) -> Seq<char> {
    let bytes = encode_utf8(key);
    if bytes.len() <= 8 {
        hidden_key()
    } else {
        decode_utf8(bytes.subrange(0, 4)) + "..."@ + decode_utf8(
            bytes.subrange(bytes.len() - 4, bytes.len() as int),
        )
    }
}

/// Whether a key can be masked: where it has more than eight bytes, no
/// character straddles the fourth byte from either end.
pub open spec fn can_be_masked(key: Seq<char>) -> bool {
    let bytes = encode_utf8(key);
    bytes.len() > 8 ==> is_char_boundary(bytes, 4) && is_char_boundary(bytes, bytes.len() - 4)
}

/// Whether a key can be masked.
pub fn can_mask(key: &str) -> (r: bool)
    ensures
        r == can_be_masked(key@),
{
    let n: usize = key.as_bytes().len();
    n <= 8 || (key.is_char_boundary(4) && key.is_char_boundary(n - 4))
}

/// Masks an API key for display.
pub fn mask_api_key(key: &str) -> (r: String)
    requires
        can_be_masked(key@),
    ensures
        r@ == masked(key@),
{
    let n: usize = key.as_bytes().len();
    if n <= 8 {
        return "****".to_string();
    }
    let (head, _) = key.split_at(4);
    let (_, tail) = key.split_at(n - 4);
    proof {
        encode_utf8_decode_utf8(head@);
        encode_utf8_decode_utf8(tail@);
    }
    glue3(head, "...", tail)
}

/// How many records the log keeps.
pub const MAX_RECORDS: usize = 10000;

/// One conversion.
pub struct ConversionRecord {
    pub id: String,
    pub timestamp: Timestamp,
    /// The key of the sender, masked.
    pub api_key: Option<String>,
    pub conversion_type: String,
    pub input_format: String,
    pub output_format: String,
    pub input_size_bytes: u64,
    pub output_size_bytes: u64,
    pub processing_time_ms: u64,
    pub success: bool,
    pub error: Option<String>,
    pub client_ip: Option<String>,
}

/// What a `ConversionRecord` holds; the instant as seconds and nanoseconds.
pub struct ConversionRecordView {
    pub id: Seq<char>,
    pub at: (i64, u32),
    pub api_key: Option<Seq<char>>,
    pub conversion_type: Seq<char>,
    pub input_format: Seq<char>,
    pub output_format: Seq<char>,
    pub input_size_bytes: u64,
    pub output_size_bytes: u64,
    pub processing_time_ms: u64,
    pub success: bool,
    pub error: Option<Seq<char>>,
    pub client_ip: Option<Seq<char>>,
}

impl View for ConversionRecord {
    type V = ConversionRecordView;

    open spec fn view(&self) -> ConversionRecordView {
        ConversionRecordView {
            id: self.id@,
            at: (self.timestamp.secs(), self.timestamp.nanos()),
            api_key: self.api_key.deep_view(),
            conversion_type: self.conversion_type@,
            input_format: self.input_format@,
            output_format: self.output_format@,
            input_size_bytes: self.input_size_bytes,
            output_size_bytes: self.output_size_bytes,
            processing_time_ms: self.processing_time_ms,
            success: self.success,
            error: self.error.deep_view(),
            client_ip: self.client_ip.deep_view(),
        }
    }
}

impl DeepView for ConversionRecord {
    type V = ConversionRecordView;

    open spec fn deep_view(&self) -> ConversionRecordView {
        self@
    }
}

/// A conversion as the list of recent conversions shows it.
pub struct ConversionSummary {
    pub id: String,
    pub timestamp: Timestamp,
    pub conversion_type: String,
    pub input_format: String,
    pub output_format: String,
    pub input_size_bytes: u64,
    pub output_size_bytes: u64,
    pub processing_time_ms: u64,
    pub success: bool,
}

impl ConversionSummary {
    /// Whether the summary shows the record.
    pub open spec fn shows(self, rec: ConversionRecordView) -> bool {
        &&& self.id@ == rec.id
        &&& (self.timestamp.secs(), self.timestamp.nanos()) == rec.at
        &&& self.conversion_type@ == rec.conversion_type
        &&& self.input_format@ == rec.input_format
        &&& self.output_format@ == rec.output_format
        &&& self.input_size_bytes == rec.input_size_bytes
        &&& self.output_size_bytes == rec.output_size_bytes
        &&& self.processing_time_ms == rec.processing_time_ms
        &&& self.success == rec.success
    }

    /// The summary of a record.
    pub fn from_record(record: &ConversionRecord) -> (r: ConversionSummary)
        ensures
            r.shows(record@),
    {
        ConversionSummary {
            id: record.id.clone(),
            timestamp: record.timestamp.copy(),
            conversion_type: record.conversion_type.clone(),
            input_format: record.input_format.clone(),
            output_format: record.output_format.clone(),
            input_size_bytes: record.input_size_bytes,
            output_size_bytes: record.output_size_bytes,
            processing_time_ms: record.processing_time_ms,
            success: record.success,
        }
    }
}

/// The key of a sender as the log holds it.
pub open spec fn masked_key(api_key: Option<Seq<char>>) -> Option<Seq<char>> {
    match api_key {
        Some(k) => Some(masked(k)),
        None => None,
    }
}

/// The log after a record was added: the record is the last, and the oldest
/// record is dropped where the log would hold more than `MAX_RECORDS`.
pub open spec fn with_record(
    records: Seq<ConversionRecordView>,
    added: ConversionRecordView,
) -> Seq<ConversionRecordView> {
    if records.len() + 1 > MAX_RECORDS {
        records.push(added).drop_first()
    } else {
        records.push(added)
    }
}

/// The log of the conversions: the newest `MAX_RECORDS` records, oldest
/// first.
pub struct StatsServiceInner {
    pub records: Vec<ConversionRecord>,
}

impl StatsServiceInner {
    /// An empty log.
    pub fn new() -> (r: StatsServiceInner)
        ensures
            r.records@.len() == 0,
    {
        StatsServiceInner { records: Vec::new() }
    }

    /// Adds a conversion to the log, with the key of its sender masked and
    /// the names of its formats in lowercase, and drops the oldest record
    /// where the log holds more than `MAX_RECORDS`.
    pub fn record_conversion(
        &mut self,
        id: String,
        now: Timestamp,
        api_key: Option<String>,
        conversion_type: &str,
        input_format: &str,
        output_format: &str,
        input_size_bytes: u64,
        output_size_bytes: u64,
        processing_time_ms: u64,
        success: bool,
        error: Option<String>,
        client_ip: Option<String>,
    )
        requires
            api_key matches Some(k) ==> can_be_masked(k@),
        ensures
            final(self).records.deep_view() == with_record(
                old(self).records.deep_view(),
                ConversionRecordView {
                    id: id@,
                    at: (now.secs(), now.nanos()),
                    api_key: masked_key(api_key.deep_view()),
                    conversion_type: conversion_type@,
                    input_format: lowercase(input_format@),
                    output_format: lowercase(output_format@),
                    input_size_bytes,
                    output_size_bytes,
                    processing_time_ms,
                    success,
                    error: error.deep_view(),
                    client_ip: client_ip.deep_view(),
                },
            ),
    {
        let ghost before = self.records.deep_view();
        let record = ConversionRecord {
            id,
            timestamp: now,
            api_key: match api_key {
                Some(k) => Some(mask_api_key(k.as_str())),
                None => None,
            },
            conversion_type: conversion_type.to_string(),
            input_format: to_lowercase(input_format),
            output_format: to_lowercase(output_format),
            input_size_bytes,
            output_size_bytes,
            processing_time_ms,
            success,
            error,
            client_ip,
        };
        let ghost view = record@;
        self.records.push(record);
        assert(self.records.deep_view() =~= before.push(view));
        if self.records.len() > MAX_RECORDS {
            self.records.remove(0);
            assert(self.records.deep_view() =~= before.push(view).drop_first());
        }
    }
}

} // verus!
