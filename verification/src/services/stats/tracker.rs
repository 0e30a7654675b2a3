//! A conversion that is under way, and how its end is logged.

use vstd::prelude::*;
use crate::clock::Timestamp;
use crate::services::stats::records::{
    can_be_masked, masked_key, with_record, ConversionRecordView, StatsServiceInner,
};
use crate::text::lowercase;

verus! {

/// The milliseconds from one instant to a later one, as a `u64` gives
/// them: none where the second instant is not later, the largest `u64` where
/// they are more.
pub open spec fn elapsed_millis(start: (i64, u32), end: (i64, u32)) -> u64 {
    let nanos = (end.0 - start.0) * 1_000_000_000 + (end.1 - start.1);
    if nanos <= 0 {
        0
    } else if nanos / 1_000_000 > u64::MAX {
        u64::MAX
    } else {
        (nanos / 1_000_000) as u64
    }
}

/// A conversion that is under way: what is known of it at its start.
pub struct ConversionTracker {
    pub started: Timestamp,
    pub api_key: Option<String>,
    pub conversion_type: String,
    pub input_format: String,
    pub output_format: String,
    pub input_size: u64,
    pub client_ip: Option<String>,
}

impl ConversionTracker {
    /// The record that the log gets when the conversion ends at `now`.
    pub open spec fn record_at(
        self,
        id: Seq<char>,
        now: (i64, u32),
        output_size: u64,
        error: Option<Seq<char>>,
    ) -> ConversionRecordView {
        ConversionRecordView {
            id,
            at: now,
            api_key: masked_key(self.api_key.deep_view()),
            conversion_type: self.conversion_type@,
            input_format: lowercase(self.input_format@),
            output_format: lowercase(self.output_format@),
            input_size_bytes: self.input_size,
            output_size_bytes: output_size,
            processing_time_ms: elapsed_millis((self.started.secs(), self.started.nanos()), now),
            success: error is None,
            error,
            client_ip: self.client_ip.deep_view(),
        }
    }

    /// A conversion that starts at the instant `started`.
    pub fn new(
        started: Timestamp,
        api_key: Option<String>,
        conversion_type: &str,
        input_format: &str,
        output_format: &str,
        input_size: u64,
        client_ip: Option<String>,
    ) -> (r: ConversionTracker)
        ensures
            r.started == started,
            r.api_key == api_key,
            r.conversion_type@ == conversion_type@,
            r.input_format@ == input_format@,
            r.output_format@ == output_format@,
            r.input_size == input_size,
            r.client_ip == client_ip,
    {
        ConversionTracker {
            started,
            api_key,
            conversion_type: conversion_type.to_string(),
            input_format: input_format.to_string(),
            output_format: output_format.to_string(),
            input_size,
            client_ip,
        }
    }

    /// The milliseconds since the start of the conversion at the instant
    /// `now`.
    pub fn elapsed_ms(&self, now: &Timestamp) -> (r: u64)
        ensures
            r == elapsed_millis(
                (self.started.secs(), self.started.nanos()),
                (now.secs(), now.nanos()),
            ),
    {
        let secs: i128 = (now.timestamp() as i128) - (self.started.timestamp() as i128);
        let nanos: i128 = secs * 1_000_000_000 + ((now.subsec_nanos() as i128) - (
        self.started.subsec_nanos() as i128));
        if nanos <= 0 {
            0
        } else if nanos / 1_000_000 > u64::MAX as i128 {
            u64::MAX
        } else {
            (nanos / 1_000_000) as u64
        }
    }

    /// Logs the conversion as a success that ended at `now` and gave
    /// `output_size` bytes.
    pub fn finish_success(
        self,
        stats: &mut StatsServiceInner,
        id: String,
        now: Timestamp,
        output_size: u64,
    )
        requires
            self.api_key matches Some(k) ==> can_be_masked(k@),
        ensures
            final(stats).records.deep_view() == with_record(
                old(stats).records.deep_view(),
                self.record_at(id@, (now.secs(), now.nanos()), output_size, None),
            ),
    {
        let elapsed = self.elapsed_ms(&now);
        stats.record_conversion(
            id,
            now,
            self.api_key,
            self.conversion_type.as_str(),
            self.input_format.as_str(),
            self.output_format.as_str(),
            self.input_size,
            output_size,
            elapsed,
            true,
            None,
            self.client_ip,
        );
    }

    /// Logs the conversion as a failure that ended at `now` with the error:
    /// it gave no bytes.
    pub fn finish_error(self, stats: &mut StatsServiceInner, id: String, now: Timestamp, error: &str)
        requires
            self.api_key matches Some(k) ==> can_be_masked(k@),
        ensures
            final(stats).records.deep_view() == with_record(
                old(stats).records.deep_view(),
                self.record_at(id@, (now.secs(), now.nanos()), 0, Some(error@)),
            ),
    {
        let elapsed = self.elapsed_ms(&now);
        stats.record_conversion(
            id,
            now,
            self.api_key,
            self.conversion_type.as_str(),
            self.input_format.as_str(),
            self.output_format.as_str(),
            self.input_size,
            0,
            elapsed,
            false,
            Some(error.to_string()),
            self.client_ip,
        );
    }
}

} // verus!
