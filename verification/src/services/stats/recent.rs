//! The recent conversions that a query asks for.

use vstd::prelude::*;
use crate::services::stats::records::{ConversionRecordView, ConversionSummary, StatsServiceInner};
use crate::services::stats::tally::{is_later, later};
use crate::text::{opt_str_eq, str_eq};

verus! {

/// Which recent conversions a reader asks for.
#[derive(Debug)]
pub struct StatsQuery {
    pub conversion_type: Option<String>,
    pub input_format: Option<String>,
    pub output_format: Option<String>,
    /// How many conversions to show.
    pub limit: usize,
    /// Whether only failed conversions are shown.
    pub only_failed: bool,
}

/// How many recent conversions are shown when the query names no limit.
pub fn default_limit() -> (r: usize)
    ensures
        r == 20,
{
    20
}

/// Whether a record passes the filters of a query.
pub open spec fn query_shows(
    rec: ConversionRecordView,
    conversion_type: Option<Seq<char>>,
    input_format: Option<Seq<char>>,
    output_format: Option<Seq<char>>,
    only_failed: bool,
    api_key: Option<Seq<char>>,
) -> bool {
    &&& conversion_type matches Some(t) ==> rec.conversion_type == t
    &&& input_format matches Some(f) ==> rec.input_format == f
    &&& output_format matches Some(f) ==> rec.output_format == f
    &&& only_failed ==> !rec.success
    &&& api_key matches Some(k) ==> rec.api_key == Some(k)
}

/// The positions of the records that pass the filters, the newest record
/// first; records of the same instant in the order of the log.
pub open spec fn recent_positions(
    records: Seq<ConversionRecordView>,
    pick: spec_fn(ConversionRecordView) -> bool,
) -> Seq<int>
    decreases records.len(),
{
    if records.len() == 0 {
        Seq::empty()
    } else {
        let rest = recent_positions(records.drop_last(), pick);
        if pick(records.last()) {
            rest.insert(
                place_recent(records, rest, records.last().at),
                records.len() - 1,
            )
        } else {
            rest
        }
    }
}

/// Where a record of the instant `at` goes in a list of positions that is
/// ordered newest first: before the first record that is earlier than it.
pub open spec fn place_recent(
    records: Seq<ConversionRecordView>,
    sorted: Seq<int>,
    at: (i64, u32),
) -> int
    decreases sorted.len(),
{
    if sorted.len() == 0 {
        0
    } else if 0 <= sorted[0] < records.len() && later(at, records[sorted[0]].at) {
        0
    } else {
        1 + place_recent(records, sorted.drop_first(), at)
    }
}

/// Whether summaries show the records at the given positions, one by one.
pub open spec fn lists_records(
    out: Seq<ConversionSummary>,
    records: Seq<ConversionRecordView>,
    positions: Seq<int>,
) -> bool {
    forall|k: int|
        0 <= k < out.len() ==> 0 <= #[trigger] positions[k] < records.len() && out[k].shows(
            records[positions[k]],
        )
}

/// The condition of a query that is asked of the records of a key, where one
/// is given as the log holds it, and of all records otherwise.
pub open spec fn query_filter(
    conversion_type: Option<Seq<char>>,
    input_format: Option<Seq<char>>,
    output_format: Option<Seq<char>>,
    only_failed: bool,
    api_key: Option<Seq<char>>,
) -> spec_fn(ConversionRecordView) -> bool {
    |rec: ConversionRecordView|
        query_shows(rec, conversion_type, input_format, output_format, only_failed, api_key)
}

impl StatsQuery {
    /// The condition of the query, asked of the records of a key or of all.
    pub open spec fn filter(self, api_key: Option<Seq<char>>) -> spec_fn(
        ConversionRecordView,
    ) -> bool {
        query_filter(
            self.conversion_type.deep_view(),
            self.input_format.deep_view(),
            self.output_format.deep_view(),
            self.only_failed,
            api_key,
        )
    }
}

/// Whether `out` shows the newest records that satisfy `pick`, the newest
/// first and at most `limit` of them.
pub open spec fn shows_recent(
    out: Seq<ConversionSummary>,
    records: Seq<ConversionRecordView>,
    pick: spec_fn(ConversionRecordView) -> bool,
    limit: usize,
) -> bool {
    let positions = recent_positions(records, pick);
    &&& out.len() == (if positions.len() < limit {
        positions.len()
    } else {
        limit as nat
    })
    &&& lists_records(out, records, positions)
}

impl StatsServiceInner {
    /// The recent conversions that pass the filters of a query: the newest
    /// first, at most as many as the query asks for.
    pub fn get_recent_conversions(&self, query: &StatsQuery) -> (r: Vec<ConversionSummary>)
        ensures
            shows_recent(r@, self.records.deep_view(), query.filter(None), query.limit),
    {
        self.recent_conversions_of(query, None)
    }

    /// The recent conversions of a key, given as the log holds it, that pass
    /// the filters of a query; those of all keys where none is given. The
    /// newest come first, at most as many as the query asks for.
    pub fn recent_conversions_of(&self, query: &StatsQuery, api_key: Option<&str>) -> (r: Vec<
        ConversionSummary,
    >)
        ensures
            shows_recent(
                r@,
                self.records.deep_view(),
                query.filter(api_key.deep_view()),
                query.limit,
            ),
    {
        let ghost all = self.records.deep_view();
        let ghost pick = query.filter(api_key.deep_view());
        let mut order: Vec<usize> = Vec::new();
        let mut i: usize = 0;
        while i < self.records.len()
            invariant
                i <= self.records.len(),
                all == self.records.deep_view(),
                pick == query.filter(api_key.deep_view()),
                order@.len() == recent_positions(all.take(i as int), pick).len(),
                forall|k: int|
                    0 <= k < order@.len() ==> (#[trigger] order@[k]) as int == recent_positions(
                        all.take(i as int),
                        pick,
                    )[k] && order@[k] < i,
            decreases self.records.len() - i,
        {
            let rec = &self.records[i];
            let ghost prefix = all.take(i as int);
            let ghost next = all.take(i + 1);
            let ghost before = recent_positions(prefix, pick);
            proof {
                assert(next.drop_last() =~= prefix);
                assert(next.last() == rec@);
            }
            let by_type: bool = match &query.conversion_type {
                Some(t) => str_eq(rec.conversion_type.as_str(), t.as_str()),
                None => true,
            };
            let by_input: bool = match &query.input_format {
                Some(f) => str_eq(rec.input_format.as_str(), f.as_str()),
                None => true,
            };
            let by_output: bool = match &query.output_format {
                Some(f) => str_eq(rec.output_format.as_str(), f.as_str()),
                None => true,
            };
            let by_key: bool = match api_key {
                Some(k) => opt_str_eq(&rec.api_key, k),
                None => true,
            };
            if by_type && by_input && by_output && by_key && (!query.only_failed || !rec.success) {
                let mut p: usize = 0;
                proof {
                    assert(before.skip(0) =~= before);
                }
                while p < order.len() && !is_later(&rec.timestamp, &self.records[order[p]].timestamp)
                    invariant
                        p <= order.len(),
                        i < self.records.len(),
                        all == self.records.deep_view(),
                        next == all.take(i + 1),
                        rec@ == all[i as int],
                        order@.len() == before.len(),
                        forall|k: int|
                            0 <= k < order@.len() ==> (#[trigger] order@[k]) as int == before[k]
                                && order@[k] < i,
                        place_recent(next, before, rec@.at) == p + place_recent(
                            next,
                            before.skip(p as int),
                            rec@.at,
                        ),
                    decreases order.len() - p,
                {
                    proof {
                        let s = before.skip(p as int);
                        assert(s[0] == before[p as int]);
                        assert(order@[p as int] as int == before[p as int]);
                        assert(next[before[p as int]] == all[before[p as int]]);
                        assert(all[order@[p as int] as int] == self.records[order@[p as int] as int]@);
                        assert(s.drop_first() =~= before.skip(p + 1));
                    }
                    p += 1;
                }
                proof {
                    let s = before.skip(p as int);
                    if p < order.len() {
                        assert(s[0] == before[p as int]);
                        assert(order@[p as int] as int == before[p as int]);
                        assert(next[before[p as int]] == all[before[p as int]]);
                        assert(all[order@[p as int] as int] == self.records[order@[p as int] as int]@);
                    }
                }
                order.insert(p, i);
                proof {
                    let after = recent_positions(next, pick);
                    assert(after == before.insert(p as int, i as int));
                    assert forall|k: int| 0 <= k < order@.len() implies (#[trigger] order@[k])
                        as int == after[k] && order@[k] < i + 1 by {
                        if k < p {
                            assert(after[k] == before[k]);
                        } else if k > p {
                            assert(after[k] == before[k - 1]);
                        }
                    }
                }
            }
            i += 1;
        }
        proof {
            assert(all.take(i as int) =~= all);
        }
        let count: usize = if order.len() < query.limit {
            order.len()
        } else {
            query.limit
        };
        let mut out: Vec<ConversionSummary> = Vec::new();
        let mut k: usize = 0;
        while k < count
            invariant
                k <= count <= order.len(),
                all == self.records.deep_view(),
                out@.len() == k,
                order@.len() == recent_positions(all, pick).len(),
                forall|j: int|
                    0 <= j < order@.len() ==> (#[trigger] order@[j]) as int == recent_positions(
                        all,
                        pick,
                    )[j] && order@[j] < self.records.len(),
                forall|j: int|
                    0 <= j < k ==> (#[trigger] out@[j]).shows(all[recent_positions(all, pick)[j]]),
            decreases count - k,
        {
            let p: usize = order[k];
            assert(order@[k as int] as int == recent_positions(all, pick)[k as int]);
            let summary = ConversionSummary::from_record(&self.records[p]);
            assert(all[p as int] == self.records[p as int]@);
            out.push(summary);
            k += 1;
        }
        proof {
            let positions = recent_positions(all, pick);
            assert forall|j: int| 0 <= j < out@.len() implies 0 <= #[trigger] positions[j]
                < all.len() && out@[j].shows(all[positions[j]]) by {
                assert(order@[j] as int == positions[j]);
            }
        }
        out
    }
}

} // verus!
