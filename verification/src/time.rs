//! Calendar values and instants as plain numbers, and their textual forms.
//!
//! Instants are UTC seconds since the Unix epoch plus a sub-second
//! nanosecond count; calendar dates and wall-clock times are their civil
//! fields. The date/time library computes parsing and time-zone resolution;
//! the arithmetic and formatting the booker relies on is verified here.
use crate::text::{decimal, digit, digit_char, string_from_chars, u64_to_decimal, chars_of};
use chrono::{Datelike, TimeZone, Timelike};
use std::fmt::Write;
use vstd::prelude::*;

verus! {

/// Nanoseconds in one second.
pub const NANOS_PER_SEC: i128 = 1_000_000_000;

/// A point in time: whole seconds since 1970-01-01T00:00:00Z and the
/// nanoseconds past that second (a leap second shows as `nanos >= 10^9`).
#[derive(Clone, Copy, PartialEq, Eq, Structural, Debug)]
pub struct UtcInstant {
    pub secs: i64,
    pub nanos: u32,
}

impl UtcInstant {
    /// Nanoseconds since the epoch.
    pub open spec fn total_nanos(self) -> int {
        self.secs * 1_000_000_000 + self.nanos
    }

    /// The instant in nanoseconds, computed.
    pub fn as_nanos(&self) -> (r: i128)
        ensures
            r == self.total_nanos(),
    {
        (self.secs as i128) * NANOS_PER_SEC + (self.nanos as i128)
    }

    /// `self` is strictly earlier than `other` (chronological order).
    pub open spec fn before(self, other: Self) -> bool {
        self.secs < other.secs || (self.secs == other.secs && self.nanos < other.nanos)
    }

    pub fn is_before(&self, other: &Self) -> (r: bool)
        ensures
            r == self.before(*other),
    {
        self.secs < other.secs || (self.secs == other.secs && self.nanos < other.nanos)
    }
}

/// Chronological order: for instants with an ordinary sub-second part, one
/// is before another exactly when it lies fewer nanoseconds after the epoch.
pub proof fn law_before_is_chronological(a: UtcInstant, b: UtcInstant)
    requires
        a.nanos < 1_000_000_000,
        b.nanos < 1_000_000_000,
    ensures
        a.before(b) <==> a.secs * 1_000_000_000 + a.nanos < b.secs * 1_000_000_000 + b.nanos,
        a.before(b) ==> !b.before(a),
        !a.before(b) && !b.before(a) ==> a.secs == b.secs && a.nanos == b.nanos,
{
    if a.secs < b.secs {
        assert(a.secs * 1_000_000_000 + 1_000_000_000 <= b.secs * 1_000_000_000) by (nonlinear_arith)
            requires
                a.secs < b.secs,
        ;
    } else if a.secs > b.secs {
        assert(b.secs * 1_000_000_000 + 1_000_000_000 <= a.secs * 1_000_000_000) by (nonlinear_arith)
            requires
                b.secs < a.secs,
        ;
    }
}

/// A span of Unix seconds, from -262144-01-01T00:00:00 to
/// +262143-12-31T23:59:59 UTC, that holds every date-time value of the
/// date/time library (whose own range is somewhat narrower); the time
/// arithmetic here stays within `i64` on it.
pub open spec fn representable(secs: int) -> bool {
    -8_334_632_851_200 <= secs <= 8_210_298_412_799
}

/// The instant written as an RFC 3339 timestamp (`None` when the text is not
/// one), as the date/time library reads it.
pub uninterp spec fn rfc3339_instant(s: Seq<char>) -> Option<UtcInstant>;

/// Trusted: `chrono::DateTime::parse_from_rfc3339`, converted to UTC. The
/// instant is named; it lies within the library's range and its sub-second
/// part is below two seconds' worth of nanoseconds (a leap second exceeds one
/// second). On failure the error's display text is returned.
#[verifier::external_body]
pub(crate) fn parse_rfc3339(s: &str) -> (r: Result<UtcInstant, String>)
    ensures
        match r {
            Ok(t) => rfc3339_instant(s@) == Some(t) && representable(t.secs as int) && t.nanos
                < 2_000_000_000,
            Err(_) => rfc3339_instant(s@) is None,
        },
{
    match chrono::DateTime::parse_from_rfc3339(s) {
        Ok(dt) => Ok(UtcInstant { secs: dt.timestamp(), nanos: dt.timestamp_subsec_nanos() }),
        Err(e) => Err(e.to_string()),
    }
}

/// A calendar date (proleptic Gregorian).
#[derive(Clone, Copy, PartialEq, Eq, Structural, Debug)]
pub struct CivilDate {
    pub year: i32,
    pub month: u32,
    pub day: u32,
}

/// A wall-clock date and time with no zone attached.
#[derive(Clone, Copy, PartialEq, Eq, Structural, Debug)]
pub struct CivilDateTime {
    pub date: CivilDate,
    pub hour: u32,
    pub minute: u32,
    pub second: u32,
    pub nanosecond: u32,
}

impl CivilDate {
    /// Field ranges of a calendar date.
    pub open spec fn wf(self) -> bool {
        1 <= self.month <= 12 && 1 <= self.day <= 31
    }

    /// `%d-%m-%Y`.
    pub open spec fn dmy(self) -> Seq<char> {
        two_digits(self.day as nat) + seq!['-'] + two_digits(self.month as nat) + seq!['-']
            + year_text(self.year as int)
    }

    /// `%Y-%m-%d`.
    pub open spec fn ymd(self) -> Seq<char> {
        year_text(self.year as int) + seq!['-'] + two_digits(self.month as nat) + seq!['-']
            + two_digits(self.day as nat)
    }
}

impl CivilDateTime {
    pub open spec fn wf(self) -> bool {
        self.date.wf() && self.hour < 24 && self.minute < 60 && self.second < 61
    }

    /// `%Y-%m-%dT%H:%M`, the value format of an HTML `datetime-local` input.
    pub open spec fn input_value(self) -> Seq<char> {
        self.date.ymd() + seq!['T'] + two_digits(self.hour as nat) + seq![':'] + two_digits(
            self.minute as nat,
        )
    }
}

#[verifier::external_type_specification]
#[verifier::external_body]
pub struct ExTz(chrono_tz::Tz);

/// The wall-clock time that `text` denotes under the `strftime`-style
/// `format`, as the date/time library parses it (`None` when it does not
/// match).
pub uninterp spec fn naive_parse(text: Seq<char>, format: Seq<char>) -> Option<CivilDateTime>;

/// Trusted: `chrono::NaiveDateTime::parse_from_str`, its result taken apart
/// into fields. The result is named; its fields are within calendar ranges.
#[verifier::external_body]
pub(crate) fn parse_naive(text: &str, format: &str) -> (r: Option<CivilDateTime>)
    ensures
        r == naive_parse(text@, format@),
        r matches Some(c) ==> c.wf(),
{
    match chrono::NaiveDateTime::parse_from_str(text, format) {
        Ok(n) => Some(
            CivilDateTime {
                date: CivilDate { year: n.year(), month: n.month(), day: n.day() },
                hour: n.hour(),
                minute: n.minute(),
                second: n.second(),
                nanosecond: n.nanosecond(),
            },
        ),
        Err(_) => None,
    }
}

/// A zone of the time-zone database, together with the name it was found
/// under. Only the constructors below make one, so the two always agree.
pub struct Zone {
    name: String,
    tz: chrono_tz::Tz,
}

impl Zone {
    /// The database name the zone was found under.
    pub closed spec fn zone_name(&self) -> Seq<char> {
        self.name@
    }

    pub fn name(&self) -> (r: &str)
        ensures
            r@ == self.zone_name(),
    {
        self.name.as_str()
    }
}

/// `name` is an IANA time-zone name known to the zone database.
pub uninterp spec fn is_zone_name(name: Seq<char>) -> bool;

/// Trusted: `chrono_tz::Tz::from_str`, an exact lookup of the name in the
/// zone database. Success is named; the zone keeps the name it was found
/// under.
#[verifier::external_body]
pub(crate) fn lookup_zone(name: &str) -> (r: Option<Zone>)
    ensures
        r is Some <==> is_zone_name(name@),
        r matches Some(z) ==> z.zone_name() == name@,
{
    match name.parse::<chrono_tz::Tz>() {
        Ok(tz) => Some(Zone { name: name.to_owned(), tz }),
        Err(_) => None,
    }
}

/// Trusted: `chrono_tz::Tz::UTC`, the zone the database lists as `UTC`.
#[verifier::external_body]
pub(crate) fn utc_zone() -> (r: Zone)
    ensures
        r.zone_name() == "UTC"@,
{
    Zone { name: "UTC".to_owned(), tz: chrono_tz::Tz::UTC }
}

/// Where a wall-clock time falls in a zone.
#[derive(Clone, Copy, PartialEq, Eq, Structural, Debug)]
pub enum LocalResolution {
    /// Exactly one instant.
    Single(UtcInstant),
    /// Occurs twice (a daylight-saving fall-back); both instants.
    Ambiguous(UtcInstant, UtcInstant),
    /// Never occurs (a spring-forward gap).
    Gap,
}

/// How the zone listed under `zone` places the wall-clock time `local`, as
/// the zone database has it (`Gap` too when the fields name no date and
/// time).
pub uninterp spec fn zone_resolution(zone: Seq<char>, local: CivilDateTime) -> LocalResolution;

/// Trusted: `TimeZone::from_local_datetime` on the zone, for the date and
/// time built from the fields (`NaiveDate::from_ymd_opt`,
/// `and_hms_nano_opt`), each resulting instant given in UTC. The result is
/// named; its instants lie within the library's range.
#[verifier::external_body]
pub(crate) fn resolve_local(zone: &Zone, local: CivilDateTime) -> (r: LocalResolution)
    ensures
        r == zone_resolution(zone.zone_name(), local),
        match r {
            LocalResolution::Single(t) => representable(t.secs as int) && t.nanos < 2_000_000_000,
            LocalResolution::Ambiguous(a, b) => representable(a.secs as int) && a.nanos
                < 2_000_000_000 && representable(b.secs as int) && b.nanos < 2_000_000_000,
            LocalResolution::Gap => true,
        },
{
    let naive = match chrono::NaiveDate::from_ymd_opt(local.date.year, local.date.month, local.date.day)
        .and_then(|d| d.and_hms_nano_opt(local.hour, local.minute, local.second, local.nanosecond)) {
        Some(n) => n,
        None => return LocalResolution::Gap,
    };
    match zone.tz.from_local_datetime(&naive) {
        chrono::LocalResult::Single(dt) => LocalResolution::Single(
            UtcInstant { secs: dt.timestamp(), nanos: dt.timestamp_subsec_nanos() },
        ),
        chrono::LocalResult::Ambiguous(a, b) => LocalResolution::Ambiguous(
            UtcInstant { secs: a.timestamp(), nanos: a.timestamp_subsec_nanos() },
            UtcInstant { secs: b.timestamp(), nanos: b.timestamp_subsec_nanos() },
        ),
        chrono::LocalResult::None => LocalResolution::Gap,
    }
}

/// The instant `t` written in the zone listed under `zone` with a
/// `strftime`-style format, as the date/time library writes it (`None` when
/// the instant is out of its range or the format does not parse).
pub uninterp spec fn zoned_text(t: UtcInstant, zone: Seq<char>, format: Seq<char>) -> Option<Seq<char>>;

/// Trusted: `DateTime::from_timestamp`, `with_timezone` and `format`, the
/// text written out with `write!`. The result is named.
#[verifier::external_body]
pub(crate) fn format_in_zone(t: UtcInstant, zone: &Zone, format: &str) -> (r: Option<String>)
    ensures
        r.deep_view() == zoned_text(t, zone.zone_name(), format@),
{
    let dt = chrono::DateTime::from_timestamp(t.secs, t.nanos)?;
    let mut out = String::new();
    match write!(out, "{}", dt.with_timezone(&zone.tz).format(format)) {
        Ok(()) => Some(out),
        Err(_) => None,
    }
}

/// A number below 100 as exactly two digits.
pub open spec fn two_digits(n: nat) -> Seq<char> {
    seq![digit_char(n / 10), digit_char(n % 10)]
}

/// A number as at least four digits, zero-padded.
pub open spec fn four_digits(n: nat) -> Seq<char> {
    if n < 10000 {
        seq![digit_char(n / 1000), digit_char((n / 100) % 10), digit_char((n / 10) % 10), digit_char(n % 10)]
    } else {
        decimal(n)
    }
}

/// A year as the `%Y` specifier writes it: four digits for years 0 to 9999,
/// otherwise an explicit sign before at least four digits.
pub open spec fn year_text(y: int) -> Seq<char> {
    if 0 <= y < 10000 {
        four_digits(y as nat)
    } else if y < 0 {
        seq!['-'] + four_digits((-y) as nat)
    } else {
        seq!['+'] + four_digits(y as nat)
    }
}

fn push_two_digits(out: &mut Vec<char>, n: u64)
    requires
        n < 100,
    ensures
        final(out)@ == old(out)@ + two_digits(n as nat),
{
    out.push(digit(n / 10));
    out.push(digit(n % 10));
    assert(final(out)@ =~= old(out)@ + two_digits(n as nat));
}

fn push_four_digits(out: &mut Vec<char>, n: u64)
    ensures
        final(out)@ == old(out)@ + four_digits(n as nat),
{
    if n < 10000 {
        out.push(digit(n / 1000));
        out.push(digit((n / 100) % 10));
        out.push(digit((n / 10) % 10));
        out.push(digit(n % 10));
        assert(final(out)@ =~= old(out)@ + four_digits(n as nat));
    } else {
        let s = u64_to_decimal(n);
        let mut v = chars_of(s.as_str());
        out.append(&mut v);
    }
}

fn push_year(out: &mut Vec<char>, y: i32)
    ensures
        final(out)@ == old(out)@ + year_text(y as int),
{
    if 0 <= y && y < 10000 {
        push_four_digits(out, y as u64);
    } else if y < 0 {
        out.push('-');
        let a: i64 = -(y as i64);
        push_four_digits(out, a as u64);
        assert(final(out)@ =~= old(out)@ + year_text(y as int));
    } else {
        out.push('+');
        push_four_digits(out, y as u64);
        assert(final(out)@ =~= old(out)@ + year_text(y as int));
    }
}

/// `%d-%m-%Y` of a date.
pub fn date_dmy(d: CivilDate) -> (s: String)
    requires
        d.wf(),
    ensures
        s@ == d.dmy(),
{
    let mut v: Vec<char> = Vec::new();
    push_two_digits(&mut v, d.day as u64);
    v.push('-');
    push_two_digits(&mut v, d.month as u64);
    v.push('-');
    push_year(&mut v, d.year);
    assert(v@ =~= d.dmy());
    string_from_chars(&v)
}

/// `%Y-%m-%dT%H:%M` of a wall-clock time.
pub fn datetime_input_value(t: CivilDateTime) -> (s: String)
    requires
        t.wf(),
    ensures
        s@ == t.input_value(),
{
    let mut v: Vec<char> = Vec::new();
    push_year(&mut v, t.date.year);
    v.push('-');
    push_two_digits(&mut v, t.date.month as u64);
    v.push('-');
    push_two_digits(&mut v, t.date.day as u64);
    v.push('T');
    push_two_digits(&mut v, t.hour as u64);
    v.push(':');
    push_two_digits(&mut v, t.minute as u64);
    assert(v@ =~= t.input_value());
    string_from_chars(&v)
}

} // verus!
