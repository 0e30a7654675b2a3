//! How often each format occurs in the log.

use vstd::prelude::*;
use crate::services::stats::records::{ConversionRecordView, StatsServiceInner};
use crate::services::stats::tally::{clamped, count_if, lemma_count_exists};
use crate::text::str_eq;

verus! {

/// How often a format occurred.
#[derive(Debug)]
pub struct FormatCount {
    pub format: String,
    pub count: u64,
}

/// What a `FormatCount` holds.
pub struct FormatCountView {
    pub format: Seq<char>,
    pub count: u64,
}

impl View for FormatCount {
    type V = FormatCountView;

    open spec fn view(&self) -> FormatCountView {
        FormatCountView { format: self.format@, count: self.count }
    }
}

impl DeepView for FormatCount {
    type V = FormatCountView;

    open spec fn deep_view(&self) -> FormatCountView {
        self@
    }
}

/// How often each format was read and written.
#[derive(Debug)]
pub struct FormatStats {
    pub input_formats: Vec<FormatCount>,
    pub output_formats: Vec<FormatCount>,
}

/// The input format of a record, or its output format.
pub open spec fn format_of(rec: ConversionRecordView, input: bool) -> Seq<char> {
    if input {
        rec.input_format
    } else {
        rec.output_format
    }
}

/// The condition of the records of a format.
pub open spec fn has_format(format: Seq<char>, input: bool) -> spec_fn(
    ConversionRecordView,
) -> bool {
    |rec: ConversionRecordView| format_of(rec, input) == format
}

/// Whether a record has the format.
pub open spec fn occurs(records: Seq<ConversionRecordView>, input: bool, format: Seq<char>) -> bool {
    exists|j: int| 0 <= j < records.len() && format_of(#[trigger] records[j], input) == format
}

/// Whether the format is listed.
pub open spec fn lists_format(counts: Seq<FormatCountView>, format: Seq<char>) -> bool {
    exists|k: int| 0 <= k < counts.len() && (#[trigger] counts[k]).format == format
}

proof fn lemma_occurs_later(
    records: Seq<ConversionRecordView>,
    input: bool,
    format: Seq<char>,
    a: int,
    b: int,
)
    requires
        0 <= a <= b <= records.len(),
        occurs(records.take(a), input, format),
    ensures
        occurs(records.take(b), input, format),
{
    let j = choose|j: int|
        0 <= j < a && format_of(#[trigger] records.take(a)[j], input) == format;
    assert(format_of(records.take(b)[j], input) == format);
}

/// Whether `counts` tallies the formats in `seen`, and no others: each once,
/// with the number of records that have it, and none before a more frequent
/// one.
pub open spec fn tallies_formats(
    counts: Seq<FormatCountView>,
    seen: Seq<Seq<char>>,
    records: Seq<ConversionRecordView>,
    input: bool,
) -> bool {
    &&& forall|k: int| 0 <= k < counts.len() ==> seen.contains((#[trigger] counts[k]).format)
    &&& forall|n: int| 0 <= n < seen.len() ==> lists_format(counts, #[trigger] seen[n])
    &&& forall|k: int|
        0 <= k < counts.len() ==> (#[trigger] counts[k]).count == count_if(
            records,
            has_format(counts[k].format, input),
        )
    &&& forall|a: int, b: int|
        0 <= a < b < counts.len() ==> (#[trigger] counts[a]).format != (
        #[trigger] counts[b]).format
    &&& forall|a: int, b: int|
        0 <= a < b < counts.len() ==> (#[trigger] counts[a]).count >= (
        #[trigger] counts[b]).count
}

proof fn lemma_place_format(
    before: Seq<FormatCountView>,
    seen: Seq<Seq<char>>,
    records: Seq<ConversionRecordView>,
    input: bool,
    p: int,
    added: FormatCountView,
)
    requires
        tallies_formats(before, seen, records, input),
        0 <= p <= before.len(),
        !seen.contains(added.format),
        added.count == count_if(records, has_format(added.format, input)),
        forall|k: int| 0 <= k < p ==> (#[trigger] before[k]).count >= added.count,
        p < before.len() ==> before[p].count < added.count,
    ensures
        tallies_formats(before.insert(p, added), seen.push(added.format), records, input),
{
    let after = before.insert(p, added);
    let seen_now = seen.push(added.format);
    assert forall|k: int| 0 <= k < after.len() implies seen_now.contains(
        (#[trigger] after[k]).format,
    ) by {
        if k == p {
            assert(seen_now[seen.len() as int] == after[k].format);
        } else {
            let o = if k < p {
                k
            } else {
                k - 1
            };
            assert(after[k] == before[o]);
            let n = choose|n: int| 0 <= n < seen.len() && seen[n] == before[o].format;
            assert(seen_now[n] == after[k].format);
        }
    }
    assert forall|n: int| 0 <= n < seen_now.len() implies lists_format(
        after,
        #[trigger] seen_now[n],
    ) by {
        if n < seen.len() {
            assert(lists_format(before, seen[n]));
            let k = choose|k: int|
                0 <= k < before.len() && (#[trigger] before[k]).format == seen[n];
            if k < p {
                assert(after[k] == before[k]);
            } else {
                assert(after[k + 1] == before[k]);
            }
        } else {
            assert(after[p] == added);
        }
    }
    assert forall|k: int| 0 <= k < after.len() implies (#[trigger] after[k]).count == count_if(
        records,
        has_format(after[k].format, input),
    ) by {
        if k < p {
            assert(after[k] == before[k]);
        } else if k > p {
            assert(after[k] == before[k - 1]);
        }
    }
    assert forall|a: int, b: int| 0 <= a < b < after.len() implies (#[trigger] after[a]).format
        != (#[trigger] after[b]).format && after[a].count >= after[b].count by {
        let oa = if a < p {
            a
        } else {
            a - 1
        };
        let ob = if b < p {
            b
        } else {
            b - 1
        };
        if a != p && b != p {
            assert(after[a] == before[oa] && after[b] == before[ob]);
        } else if a == p {
            assert(after[b] == before[ob]);
            assert(seen.contains(before[ob].format));
            assert(before[p].count < added.count);
            if ob > p {
                assert(before[p].count >= before[ob].count);
            }
        } else {
            assert(after[a] == before[oa]);
            assert(seen.contains(before[oa].format));
        }
    }
}

/// Whether `counts` tallies the input formats of the records, or their
/// output formats: every format that occurs is listed once, with the number of
/// records that have it, and no format is listed before a more frequent one.
/// Formats that are equally frequent may stand in any order.
pub open spec fn is_format_tally(
    counts: Seq<FormatCountView>,
    records: Seq<ConversionRecordView>,
    input: bool,
) -> bool {
    &&& forall|a: int, b: int|
        0 <= a < b < counts.len() ==> (#[trigger] counts[a]).format != (
        #[trigger] counts[b]).format
    &&& forall|k: int|
        0 <= k < counts.len() ==> (#[trigger] counts[k]).count > 0 && counts[k].count
            == count_if(records, has_format(counts[k].format, input))
    &&& forall|j: int|
        0 <= j < records.len() ==> lists_format(counts, format_of(#[trigger] records[j], input))
    &&& forall|a: int, b: int|
        0 <= a < b < counts.len() ==> (#[trigger] counts[a]).count >= (
        #[trigger] counts[b]).count
}

impl StatsServiceInner {
    /// How often each input format and each output format occurs in the log,
    /// the most frequent first.
    pub fn get_format_stats(&self) -> (r: FormatStats)
        ensures
            is_format_tally(r.input_formats.deep_view(), self.records.deep_view(), true),
            is_format_tally(r.output_formats.deep_view(), self.records.deep_view(), false),
    {
        FormatStats { input_formats: self.format_counts(true), output_formats: self.format_counts(false) }
    }

    fn distinct_formats(&self, input: bool) -> (r: Vec<String>)
        ensures
            forall|a: int, b: int|
                0 <= a < b < r.len() ==> (#[trigger] r.deep_view()[a]) != (
                #[trigger] r.deep_view()[b]),
            forall|j: int|
                0 <= j < self.records.len() ==> r.deep_view().contains(
                    format_of(#[trigger] self.records.deep_view()[j], input),
                ),
            forall|k: int|
                0 <= k < r.len() ==> occurs(
                    self.records.deep_view(),
                    input,
                    #[trigger] r.deep_view()[k],
                ),
    {
        let ghost all = self.records.deep_view();
        let mut names: Vec<String> = Vec::new();
        let mut i: usize = 0;
        while i < self.records.len()
            invariant
                i <= self.records.len(),
                all == self.records.deep_view(),
                forall|a: int, b: int|
                    0 <= a < b < names.len() ==> (#[trigger] names.deep_view()[a]) != (
                    #[trigger] names.deep_view()[b]),
                forall|j: int|
                    0 <= j < i ==> names.deep_view().contains(format_of(#[trigger] all[j], input)),
                forall|k: int|
                    0 <= k < names.len() ==> occurs(
                        all.take(i as int),
                        input,
                        #[trigger] names.deep_view()[k],
                    ),
            decreases self.records.len() - i,
        {
            let rec = &self.records[i];
            let format: &str = if input {
                rec.input_format.as_str()
            } else {
                rec.output_format.as_str()
            };
            assert(all[i as int] == rec@);
            assert(format@ == format_of(all[i as int], input));
            let mut k: usize = 0;
            while k < names.len() && !str_eq(names[k].as_str(), format)
                invariant
                    k <= names.len(),
                    forall|m: int| 0 <= m < k ==> names.deep_view()[m] != format@,
                decreases names.len() - k,
            {
                assert(names.deep_view()[k as int] == names[k as int]@);
                k += 1;
            }
            let ghost before = names.deep_view();
            if k == names.len() {
                names.push(format.to_string());
                proof {
                    let after = names.deep_view();
                    assert(after =~= before.push(format@));
                    assert(after[before.len() as int] == format@);
                    assert forall|j: int| 0 <= j < i + 1 implies after.contains(
                        format_of(#[trigger] all[j], input),
                    ) by {
                        if j < i {
                            let m = choose|m: int|
                                0 <= m < before.len() && before[m] == format_of(all[j], input);
                            assert(after[m] == before[m]);
                        }
                    }
                    assert forall|m: int| 0 <= m < after.len() implies occurs(
                        all.take(i + 1),
                        input,
                        #[trigger] after[m],
                    ) by {
                        if m < before.len() {
                            assert(after[m] == before[m]);
                            lemma_occurs_later(all, input, before[m], i as int, i + 1);
                        } else {
                            assert(format_of(all.take(i + 1)[i as int], input) == after[m]);
                        }
                    }
                }
            } else {
                proof {
                    assert(names.deep_view()[k as int] == names[k as int]@);
                    assert(before.contains(format@));
                    assert forall|m: int| 0 <= m < before.len() implies occurs(
                        all.take(i + 1),
                        input,
                        #[trigger] before[m],
                    ) by {
                        lemma_occurs_later(all, input, before[m], i as int, i + 1);
                    }
                }
            }
            i += 1;
        }
        proof {
            assert(all.take(i as int) =~= all);
        }
        names
    }

    fn count_format(&self, format: &str, input: bool) -> (r: u64)
        ensures
            r == clamped(count_if(self.records.deep_view(), has_format(format@, input))),
            r == count_if(self.records.deep_view(), has_format(format@, input)),
    {
        let ghost all = self.records.deep_view();
        let ghost pick = has_format(format@, input);
        let mut n: u64 = 0;
        let mut i: usize = 0;
        while i < self.records.len()
            invariant
                i <= self.records.len(),
                all == self.records.deep_view(),
                pick == has_format(format@, input),
                n == count_if(all.take(i as int), pick),
                n <= i,
            decreases self.records.len() - i,
        {
            let rec = &self.records[i];
            proof {
                assert(all.take(i + 1).drop_last() =~= all.take(i as int));
                assert(all.take(i + 1).last() == rec@);
            }
            let same: bool = if input {
                str_eq(rec.input_format.as_str(), format)
            } else {
                str_eq(rec.output_format.as_str(), format)
            };
            if same {
                n += 1;
            }
            i += 1;
        }
        proof {
            assert(all.take(i as int) =~= all);
        }
        n
    }

    fn format_counts(&self, input: bool) -> (r: Vec<FormatCount>)
        ensures
            is_format_tally(r.deep_view(), self.records.deep_view(), input),
    {
        let ghost all = self.records.deep_view();
        let names: Vec<String> = self.distinct_formats(input);
        let mut out: Vec<FormatCount> = Vec::new();
        let mut m: usize = 0;
        while m < names.len()
            invariant
                m <= names.len(),
                all == self.records.deep_view(),
                forall|a: int, b: int|
                    0 <= a < b < names.len() ==> (#[trigger] names.deep_view()[a]) != (
                    #[trigger] names.deep_view()[b]),
                tallies_formats(out.deep_view(), names.deep_view().take(m as int), all, input),
            decreases names.len() - m,
        {
            let name: &String = &names[m];
            assert(names.deep_view()[m as int] == name@);
            let count: u64 = self.count_format(name.as_str(), input);
            let mut p: usize = 0;
            while p < out.len() && out[p].count >= count
                invariant
                    p <= out.len(),
                    forall|k: int| 0 <= k < p ==> (#[trigger] out.deep_view()[k]).count >= count,
                decreases out.len() - p,
            {
                assert(out.deep_view()[p as int] == out[p as int]@);
                p += 1;
            }
            let ghost before = out.deep_view();
            let ghost added = FormatCountView { format: name@, count };
            let ghost seen = names.deep_view().take(m as int);
            proof {
                if p < out.len() {
                    assert(out.deep_view()[p as int] == out[p as int]@);
                }
                if seen.contains(name@) {
                    let n = choose|n: int| 0 <= n < seen.len() && seen[n] == name@;
                    assert(names.deep_view()[n] != names.deep_view()[m as int]);
                }
            }
            out.insert(p, FormatCount { format: name.clone(), count });
            proof {
                assert(out.deep_view() =~= before.insert(p as int, added));
                assert(names.deep_view().take(m + 1) =~= seen.push(name@));
                lemma_place_format(before, seen, all, input, p as int, added);
            }
            m += 1;
        }
        proof {
            let tally = out.deep_view();
            let every = names.deep_view();
            assert(every.take(m as int) =~= every);
            assert forall|j: int| 0 <= j < all.len() implies lists_format(
                tally,
                format_of(#[trigger] all[j], input),
            ) by {
                let f = format_of(all[j], input);
                assert(every.contains(f));
                let n = choose|n: int| 0 <= n < every.len() && every[n] == f;
                assert(lists_format(tally, every[n]));
            }
            assert forall|k: int| 0 <= k < tally.len() implies (#[trigger] tally[k]).count > 0 by {
                let n = choose|n: int| 0 <= n < every.len() && every[n] == tally[k].format;
                assert(occurs(all, input, every[n]));
                let j = choose|j: int|
                    0 <= j < all.len() && format_of(#[trigger] all[j], input) == tally[k].format;
                lemma_count_exists(all, has_format(tally[k].format, input));
                assert(has_format(tally[k].format, input)(all[j]));
            }
        }
        out
    }
}

} // verus!
