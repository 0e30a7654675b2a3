//! Job identifiers: 128-bit UUIDs, generated and rendered by the `uuid` crate.

use vstd::prelude::*;

verus! {

/// What `Uuid::parse_str` makes of a text: the 128 bits of the identifier, or
/// `None` where the text is not an identifier in any form that it accepts.
pub uninterp spec fn uuid_parse(s: Seq<char>) -> Option<u128>;

/// The lowercase hexadecimal digit of a value below sixteen.
pub open spec fn hex_char(d: u128) -> char {
    if d == 0 {
        '0'
    } else if d == 1 {
        '1'
    } else if d == 2 {
        '2'
    } else if d == 3 {
        '3'
    } else if d == 4 {
        '4'
    } else if d == 5 {
        '5'
    } else if d == 6 {
        '6'
    } else if d == 7 {
        '7'
    } else if d == 8 {
        '8'
    } else if d == 9 {
        '9'
    } else if d == 10 {
        'a'
    } else if d == 11 {
        'b'
    } else if d == 12 {
        'c'
    } else if d == 13 {
        'd'
    } else if d == 14 {
        'e'
    } else {
        'f'
    }
}

/// How many hyphens stand before position `i` of a hyphenated identifier.
pub open spec fn hyphens_before(i: int) -> int {
    if i < 8 {
        0
    } else if i < 13 {
        1
    } else if i < 18 {
        2
    } else if i < 23 {
        3
    } else {
        4
    }
}

/// The hyphenated form of an identifier: 32 lowercase hexadecimal digits, most
/// significant first, in groups of 8, 4, 4, 4 and 12.
pub open spec fn uuid_text(bits: u128) -> Seq<char> {
    Seq::new(
        36,
        |i: int|
            if i == 8 || i == 13 || i == 18 || i == 23 {
                '-'
            } else {
                hex_char((bits >> ((4 * (31 - (i - hyphens_before(i)))) as u128)) & 0xf)
            },
    )
}

/// The bits that mark a random (version 4, RFC variant) identifier.
pub open spec fn is_random_uuid(bits: u128) -> bool {
    bits & 0x0000_0000_0000_f000_c000_0000_0000_0000 == 0x0000_0000_0000_4000_8000_0000_0000_0000
}

/// Calls `Uuid::new_v4`. The value is random; the contract states only the
/// version and variant bits, which the crate sets on every value it returns.
#[verifier::external_body]
fn random_uuid_bits() -> (r: u128)
    ensures
        is_random_uuid(r),
{
    uuid::Uuid::new_v4().as_u128()
}

/// Renders an identifier with `Uuid`'s `Display`, which writes the hyphenated
/// lowercase form. `Uuid::parse_str` reads every form that the crate writes, so
/// the text parses back to the same identifier.
#[verifier::external_body]
fn uuid_hyphenated(bits: u128) -> (r: String)
    ensures
        r@ == uuid_text(bits),
        uuid_parse(r@) == Some(bits),
{
    uuid::Uuid::from_u128(bits).to_string()
}

/// Calls `Uuid::parse_str`. The contract only gives the result its name.
#[verifier::external_body]
fn uuid_parse_str(s: &str) -> (r: Option<u128>)
    ensures
        r == uuid_parse(s@),
{
    uuid::Uuid::parse_str(s).ok().map(|u| u.as_u128())
}

/// The identifier of a job.
#[derive(Clone, Copy, Debug, PartialEq, Eq, Structural)]
pub struct JobId {
    pub bits: u128,
}

impl JobId {
    /// The hyphenated text of the identifier.
    pub open spec fn text(self) -> Seq<char> {
        uuid_text(self.bits)
    }

    /// A fresh random identifier.
    pub fn new_random() -> (r: JobId)
        ensures
            is_random_uuid(r.bits),
    {
        JobId { bits: random_uuid_bits() }
    }

    /// The identifier with the given bits.
    pub fn from_u128(bits: u128) -> (r: JobId)
        ensures
            r.bits == bits,
    {
        JobId { bits }
    }

    /// Reads an identifier from text.
    pub fn parse_str(s: &str) -> (r: Option<JobId>)
        ensures
            r == Self::parsed(s@),
    {
        match uuid_parse_str(s) {
            Some(bits) => Some(JobId { bits }),
            None => None,
        }
    }

    /// What `parse_str` returns for a text.
    pub open spec fn parsed(s: Seq<char>) -> Option<JobId> {
        match uuid_parse(s) {
            Some(bits) => Some(JobId { bits }),
            None => None,
        }
    }

    /// The hyphenated text of the identifier. It reads back as the identifier.
    pub fn to_string(&self) -> (r: String)
        ensures
            r@ == self.text(),
            Self::parsed(self.text()) == Some(*self),
    {
        uuid_hyphenated(self.bits)
    }
}

} // verus!
