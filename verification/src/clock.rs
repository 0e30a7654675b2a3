//! Points in time, read and rendered by the `chrono` crate.

use vstd::prelude::*;

verus! {

/// The RFC 3339 text that `DateTime::<Utc>::to_rfc3339` writes for the instant
/// `secs` seconds and `nanos` nanoseconds after the Unix epoch, or `None` where
/// `DateTime::from_timestamp` holds no such instant.
pub uninterp spec fn rfc3339_text(secs: i64, nanos: u32) -> Option<Seq<char>>;

/// The instant that `DateTime::parse_from_rfc3339` reads from a text, as
/// seconds and nanoseconds after the Unix epoch, or `None` where it rejects the
/// text.
pub uninterp spec fn rfc3339_parse(s: Seq<char>) -> Option<(i64, u32)>;

/// The text that chrono's format `%Y%m%d_%H%M%S` gives for an instant in UTC.
pub uninterp spec fn compact_text(secs: i64, nanos: u32) -> Seq<char>;

/// Reads the system clock with `Utc::now`. Nothing is stated of the value but
/// that it is an instant chrono can hold, so that rendering it succeeds.
#[verifier::external_body]
fn system_now() -> (r: (i64, u32))
    ensures
        rfc3339_text(r.0, r.1) is Some,
{
    let now = chrono::Utc::now();
    (now.timestamp(), now.timestamp_subsec_nanos())
}

/// Builds the instant with `DateTime::from_timestamp` and renders it with
/// `DateTime::to_rfc3339`.
#[verifier::external_body]
fn render_rfc3339(secs: i64, nanos: u32) -> (r: Option<String>)
    ensures
        r.deep_view() == rfc3339_text(secs, nanos),
{
    chrono::DateTime::from_timestamp(secs, nanos).map(|d| d.to_rfc3339())
}

/// Calls `DateTime::parse_from_rfc3339` and takes the instant as seconds and
/// nanoseconds.
#[verifier::external_body]
fn read_rfc3339(s: &str) -> (r: Option<(i64, u32)>)
    ensures
        r == rfc3339_parse(s@),
{
    chrono::DateTime::parse_from_rfc3339(s).ok().map(|d| (d.timestamp(), d.timestamp_subsec_nanos()))
}

/// Renders an instant with chrono's format `%Y%m%d_%H%M%S`.
#[verifier::external_body]
fn render_compact(secs: i64, nanos: u32) -> (r: String)
    requires
        rfc3339_text(secs, nanos) is Some,
    ensures
        r@ == compact_text(secs, nanos),
{
    chrono::DateTime::from_timestamp(secs, nanos).unwrap().format("%Y%m%d_%H%M%S").to_string()
}

/// An instant in UTC, together with its RFC 3339 text.
pub struct Timestamp {
    secs: i64,
    nanos: u32,
    text: String,
}

impl Timestamp {
    #[verifier::type_invariant]
    spec fn consistent(self) -> bool {
        rfc3339_text(self.secs, self.nanos) == Some(self.text@)
    }

    /// Whole seconds since the Unix epoch.
    pub closed spec fn secs(self) -> i64 {
        self.secs
    }

    /// Nanoseconds after the whole second.
    pub closed spec fn nanos(self) -> u32 {
        self.nanos
    }

    /// The RFC 3339 text of the instant.
    pub closed spec fn text(self) -> Seq<char> {
        self.text@
    }

    /// The current time.
    pub fn now() -> (r: Timestamp) {
        let (secs, nanos) = system_now();
        match render_rfc3339(secs, nanos) {
            Some(text) => Timestamp { secs, nanos, text },
            None => {
                // The clock gives only instants that can be rendered.
                assert(false);
                Timestamp { secs, nanos, text: String::new() }
            },
        }
    }

    /// The instant `secs` seconds and `nanos` nanoseconds after the Unix epoch,
    /// where the calendar holds it.
    pub fn from_parts(secs: i64, nanos: u32) -> (r: Option<Timestamp>)
        ensures
            r is Some <==> rfc3339_text(secs, nanos) is Some,
            r matches Some(t) ==> t.secs() == secs && t.nanos() == nanos && Some(t.text())
                == rfc3339_text(secs, nanos),
    {
        match render_rfc3339(secs, nanos) {
            Some(text) => Some(Timestamp { secs, nanos, text }),
            None => None,
        }
    }

    /// Seconds since the Unix epoch.
    pub fn timestamp(&self) -> (r: i64)
        ensures
            r == self.secs(),
    {
        self.secs
    }

    /// Nanoseconds after the whole second.
    pub fn subsec_nanos(&self) -> (r: u32)
        ensures
            r == self.nanos(),
    {
        self.nanos
    }

    /// The RFC 3339 text of the instant.
    pub fn to_rfc3339(&self) -> (r: String)
        ensures
            r@ == self.text(),
            Some(r@) == rfc3339_text(self.secs(), self.nanos()),
    {
        proof {
            use_type_invariant(self);
        }
        self.text.clone()
    }

    /// A copy of the instant.
    pub fn copy(&self) -> (r: Timestamp)
        ensures
            r.secs() == self.secs(),
            r.nanos() == self.nanos(),
            r.text() == self.text(),
    {
        proof {
            use_type_invariant(self);
        }
        Timestamp { secs: self.secs, nanos: self.nanos, text: self.text.clone() }
    }

    /// The instant `delta` seconds later (earlier when `delta` is negative).
    pub open spec fn shifted(self, delta: int) -> Option<(i64, u32)> {
        let s = self.secs() + delta;
        if i64::MIN <= s <= i64::MAX && rfc3339_text(s as i64, self.nanos()) is Some {
            Some((s as i64, self.nanos()))
        } else {
            None
        }
    }

    /// The instant `delta` seconds later, where the calendar holds it.
    pub fn plus_seconds(&self, delta: i64) -> (r: Option<Timestamp>)
        ensures
            r is Some <==> self.shifted(delta as int) is Some,
            r matches Some(t) ==> Some((t.secs(), t.nanos())) == self.shifted(delta as int)
                && Some(t.text()) == rfc3339_text(t.secs(), t.nanos()),
    {
        match self.secs.checked_add(delta) {
            Some(s) => Timestamp::from_parts(s, self.nanos),
            None => None,
        }
    }

    /// The RFC 3339 text of the instant `delta` seconds later, where the
    /// calendar holds it.
    pub open spec fn text_at(self, delta: int) -> Option<Seq<char>> {
        match self.shifted(delta) {
            Some(p) => rfc3339_text(p.0, p.1),
            None => None,
        }
    }

    /// The RFC 3339 text of the instant `amount * unit` seconds later, or
    /// earlier when `backwards` is set.
    pub fn rfc3339_at(&self, amount: i64, unit: i64, backwards: bool) -> (r: Option<String>)
        ensures
            r.deep_view() == self.text_at(
                if backwards {
                    -(amount * unit)
                } else {
                    amount * unit
                },
            ),
    {
        assert(-0x4000_0000_0000_0000_0000_0000_0000_0000 <= amount * unit
            <= 0x4000_0000_0000_0000_0000_0000_0000_0000) by (nonlinear_arith)
            requires
                -0x8000_0000_0000_0000 <= amount <= 0x7fff_ffff_ffff_ffff,
                -0x8000_0000_0000_0000 <= unit <= 0x7fff_ffff_ffff_ffff,
        ;
        let span: i128 = (amount as i128) * (unit as i128);
        let at: i128 = if backwards {
            (self.secs as i128) - span
        } else {
            (self.secs as i128) + span
        };
        if at < (i64::MIN as i128) || at > (i64::MAX as i128) {
            return None;
        }
        match Timestamp::from_parts(at as i64, self.nanos) {
            Some(t) => Some(t.to_rfc3339()),
            None => None,
        }
    }

    /// The RFC 3339 text in UTC of the instant that a text denotes, where it
    /// denotes one.
    pub open spec fn normalized(s: Seq<char>) -> Option<Seq<char>> {
        match rfc3339_parse(s) {
            Some(p) => rfc3339_text(p.0, p.1),
            None => None,
        }
    }

    /// Reads an RFC 3339 text.
    pub fn parse(s: &str) -> (r: Option<Timestamp>)
        ensures
            r is Some <==> Self::normalized(s@) is Some,
            r matches Some(t) ==> Some((t.secs(), t.nanos())) == rfc3339_parse(s@) && Some(
                t.text(),
            ) == Self::normalized(s@),
    {
        match read_rfc3339(s) {
            Some((secs, nanos)) => Timestamp::from_parts(secs, nanos),
            None => None,
        }
    }

    /// The instant as `YYYYMMDD_HHMMSS`.
    pub fn to_compact(&self) -> (r: String)
        ensures
            r@ == compact_text(self.secs(), self.nanos()),
    {
        proof {
            use_type_invariant(self);
        }
        render_compact(self.secs, self.nanos)
    }
}

} // verus!
