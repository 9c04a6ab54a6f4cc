//! Instants in time, carried as Unix seconds and a nanosecond part.
//!
//! Reading the clock, writing an instant in RFC 3339 text and reading one
//! back are done by the `time` crate behind trusted wrappers.

use vstd::prelude::*;

verus! {

/// First instant RFC 3339 can express: 0000-01-01T00:00:00Z, less the
/// largest admissible offset.
pub const MIN_RFC3339_SECS: i64 = -62167219200 - 93600;

/// Last instant RFC 3339 can express: 9999-12-31T23:59:59Z, plus the largest
/// admissible offset.
pub const MAX_RFC3339_SECS: i64 = 253402300799 + 93600;

/// An instant: seconds since the Unix epoch, plus a nanosecond part.
#[derive(Clone, Copy, PartialEq, Eq, Structural, Debug)]
pub struct Moment {
    pub secs: i64,
    pub nanos: u32,
}

impl Moment {
    /// An instant both in `time`'s supported range and RFC 3339's.
    pub open spec fn wf(self) -> bool {
        &&& self.nanos < 1_000_000_000
        &&& MIN_RFC3339_SECS <= self.secs <= MAX_RFC3339_SECS
    }

    /// An instant RFC 3339 can write as UTC text.
    pub open spec fn formattable(self) -> bool {
        &&& self.nanos < 1_000_000_000
        &&& -62167219200 <= self.secs <= 253402300799
    }
}

/// The instant an RFC 3339 text denotes, if the `time` crate parses it:
/// Unix seconds and the nanosecond part.
pub uninterp spec fn rfc3339_moment_of(s: Seq<char>) -> Option<(i64, u32)>;

/// The RFC 3339 UTC text of an instant, as the `time` crate writes it.
pub uninterp spec fn rfc3339_str_of(secs: i64, nanos: u32) -> Seq<char>;

/// An error of this module: text that does not parse as a moment in time.
#[derive(Debug)]
pub enum TimeError {
    FailToDateParse(String),
}

/// Relies on `time::OffsetDateTime::now_utc`: the clock can return any
/// instant, with a nanosecond part below one second.
#[verifier::external_body]
pub fn now_utc() -> (r: Moment)
    ensures
        r.nanos < 1_000_000_000,
{
    let t = time::OffsetDateTime::now_utc();
    Moment { secs: t.unix_timestamp(), nanos: t.nanosecond() }
}

/// Relies on `time::OffsetDateTime::format` with the `Rfc3339` description:
/// the text depends on the instant alone, and formatting cannot fail inside
/// the representable range.
#[verifier::external_body]
pub fn format_time(t: Moment) -> (r: String)
    requires
        t.formattable(),
    ensures
        r@ == rfc3339_str_of(t.secs, t.nanos),
{
    let odt = time::OffsetDateTime::from_unix_timestamp(t.secs)
        .unwrap()
        .replace_nanosecond(t.nanos)
        .unwrap();
    odt.format(&time::format_description::well_known::Rfc3339).unwrap()
}

/// Relies on `time::OffsetDateTime::parse` with the `Rfc3339` description:
/// the text denotes an instant within RFC 3339's range, or parsing fails, on
/// the text alone.
#[verifier::external_body]
pub fn parse_utc(moment: &str) -> (r: Result<Moment, TimeError>)
    ensures
        match r {
            Ok(m) => rfc3339_moment_of(moment@) == Some((m.secs, m.nanos)) && m.wf(),
            Err(e) => rfc3339_moment_of(moment@) is None && (e matches TimeError::FailToDateParse(
                s,
            ) && s@ == moment@),
        },
{
    match time::OffsetDateTime::parse(moment, &time::format_description::well_known::Rfc3339) {
        Ok(odt) => Ok(Moment { secs: odt.unix_timestamp(), nanos: odt.nanosecond() }),
        Err(_) => Err(TimeError::FailToDateParse(moment.to_string())),
    }
}

} // verus!
