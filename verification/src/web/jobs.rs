//! Scheduled-booking pages: reading the requested firing time in the club's
//! own zone, validating a schedule request, and showing stored times.
use crate::text::{concat, decimal, has_prefix, i64_to_decimal, signed_decimal, u64_to_decimal};
use crate::time::{
    format_in_zone, is_zone_name, lookup_zone, naive_parse, parse_naive, parse_rfc3339,
    representable, resolve_local, rfc3339_instant, utc_zone, zone_resolution, zoned_text,
    CivilDateTime, LocalResolution, UtcInstant, Zone,
};
use vstd::prelude::*;
use vstd::string::*;

verus! {

/// The schedule form: which slot, and when (a `datetime-local` value read in
/// the club's zone).
pub struct CreateForm {
    pub club_id: i64,
    pub event_id: i64,
    pub booking_group_id: u32,
    pub scheduled_time: String,
}

/// A `datetime-local` value, with or without seconds.
pub open spec fn local_value(value: Seq<char>) -> Option<CivilDateTime> {
    match naive_parse(value, "%Y-%m-%dT%H:%M:%S"@) {
        Some(c) => Some(c),
        None => naive_parse(value, "%Y-%m-%dT%H:%M"@),
    }
}

/// Parse a browser `datetime-local` value (with or without seconds).
pub fn parse_local_datetime(value: &str) -> (r: Option<CivilDateTime>)
    ensures
        r == local_value(value@),
{
    match parse_naive(value, "%Y-%m-%dT%H:%M:%S") {
        Some(p) => Some(p),
        None => parse_naive(value, "%Y-%m-%dT%H:%M"),
    }
}

/// The instant to fire at for a wall-clock time: the single one; the earlier
/// of two on a daylight-saving fall-back (being early is harmless, being late
/// forfeits the race); none inside a spring-forward gap.
pub open spec fn pick_instant(res: LocalResolution) -> Option<UtcInstant> {
    match res {
        LocalResolution::Single(t) => Some(t),
        LocalResolution::Ambiguous(a, b) => Some(
            if b.before(a) {
                b
            } else {
                a
            },
        ),
        LocalResolution::Gap => None,
    }
}

pub fn choose_instant(res: LocalResolution) -> (r: Option<UtcInstant>)
    ensures
        r == pick_instant(res),
{
    match res {
        LocalResolution::Single(t) => Some(t),
        LocalResolution::Ambiguous(a, b) => {
            if b.is_before(&a) {
                Some(b)
            } else {
                Some(a)
            }
        },
        LocalResolution::Gap => None,
    }
}

/// Of the two instants a repeated wall-clock time names, the earlier one is
/// chosen: the result is one of them and neither comes before it.
pub proof fn law_fall_back_fires_early(a: UtcInstant, b: UtcInstant)
    ensures
        pick_instant(LocalResolution::Ambiguous(a, b)) matches Some(t) && (t == a || t == b)
            && !a.before(t) && !b.before(t),
{
}

/// The firing instant a `datetime-local` value asks for, read as wall-clock
/// time in the zone listed under `zone`.
pub open spec fn local_instant(value: Seq<char>, zone: Seq<char>) -> Option<UtcInstant> {
    match local_value(value) {
        None => None,
        Some(local) => pick_instant(zone_resolution(zone, local)),
    }
}

/// Interpret a `datetime-local` value as wall-clock time in the club's zone
/// and convert it to UTC. `None` for an unparseable value or a time that
/// does not occur in the zone.
pub fn local_to_utc(value: &str, zone: &Zone) -> (r: Option<UtcInstant>)
    ensures
        r == local_instant(value@, zone.zone_name()),
        r matches Some(t) ==> representable(t.secs as int) && t.nanos < 2_000_000_000,
{
    match parse_local_datetime(value) {
        None => None,
        Some(local) => {
            let res = resolve_local(zone, local);
            choose_instant(res)
        },
    }
}

/// The zone a club's stored zone name stands for: that name when the zone
/// database knows it, else `UTC`.
pub open spec fn club_zone_name(name: Seq<char>) -> Seq<char> {
    if is_zone_name(name) {
        name
    } else {
        "UTC"@
    }
}

/// A club's zone: its stored name when the zone database knows it, else UTC.
pub fn club_zone(name: &str) -> (r: Zone)
    ensures
        r.zone_name() == club_zone_name(name@),
{
    match lookup_zone(name) {
        Some(zone) => zone,
        None => utc_zone(),
    }
}

/// Why a schedule request was bounced back to the slot page.
#[derive(Clone, Copy, PartialEq, Eq, Structural, Debug)]
pub enum ScheduleRefusal {
    UnknownClub,
    BadTime,
    Past,
}

impl ScheduleRefusal {
    /// The error code carried back in the redirect.
    pub open spec fn code(self) -> Seq<char> {
        match self {
            ScheduleRefusal::UnknownClub => "unknownclub"@,
            ScheduleRefusal::BadTime => "badtime"@,
            ScheduleRefusal::Past => "past"@,
        }
    }

    pub fn as_code(&self) -> (r: &'static str)
        ensures
            r@ == self.code(),
    {
        match self {
            ScheduleRefusal::UnknownClub => "unknownclub",
            ScheduleRefusal::BadTime => "badtime",
            ScheduleRefusal::Past => "past",
        }
    }
}

pub open spec fn schedule_check_spec(
    club_found: bool,
    when: Option<UtcInstant>,
    now: UtcInstant,
) -> Result<UtcInstant, ScheduleRefusal> {
    if !club_found {
        Err(ScheduleRefusal::UnknownClub)
    } else {
        match when {
            None => Err(ScheduleRefusal::BadTime),
            Some(t) => if now.before(t) {
                Ok(t)
            } else {
                Err(ScheduleRefusal::Past)
            },
        }
    }
}

/// Validate a schedule request: the club must exist, the time must read as a
/// real instant in its zone, and that instant must still be ahead of `now`.
/// A schedule request for a known club with a readable time is accepted,
/// unchanged, exactly when that time lies after the current reading, and
/// refused as past otherwise (instants with an ordinary sub-second part).
pub proof fn law_future_times_accepted(t: UtcInstant, now: UtcInstant)
    requires
        t.nanos < 1_000_000_000,
        now.nanos < 1_000_000_000,
    ensures
        schedule_check_spec(true, Some(t), now) == (if now.secs * 1_000_000_000 + now.nanos < t.secs
            * 1_000_000_000 + t.nanos {
            Ok::<UtcInstant, ScheduleRefusal>(t)
        } else {
            Err(ScheduleRefusal::Past)
        }),
        schedule_check_spec(true, None, now) == Err::<UtcInstant, ScheduleRefusal>(
            ScheduleRefusal::BadTime,
        ),
        schedule_check_spec(false, Some(t), now) == Err::<UtcInstant, ScheduleRefusal>(
            ScheduleRefusal::UnknownClub,
        ),
{
    crate::time::law_before_is_chronological(now, t);
}

pub fn check_schedule(club_found: bool, when: Option<UtcInstant>, now: UtcInstant) -> (r: Result<
    UtcInstant,
    ScheduleRefusal,
>)
    ensures
        r == schedule_check_spec(club_found, when, now),
{
    if !club_found {
        return Err(ScheduleRefusal::UnknownClub);
    }
    match when {
        None => Err(ScheduleRefusal::BadTime),
        Some(t) => {
            if now.is_before(&t) {
                Ok(t)
            } else {
                Err(ScheduleRefusal::Past)
            }
        },
    }
}

/// The slot's schedule page, carrying an error code.
pub open spec fn back_url(club_id: i64, event_id: i64, group_id: u32, code: Seq<char>) -> Seq<char> {
    "/clubs/"@ + signed_decimal(club_id as int) + "/events/"@ + signed_decimal(event_id as int)
        + "/groups/"@ + decimal(group_id as nat) + "/schedule?error="@ + code
}

/// Where a refused schedule request is redirected.
pub fn schedule_back_url(form: &CreateForm, code: &str) -> (r: String)
    ensures
        r@ == back_url(form.club_id, form.event_id, form.booking_group_id, code@),
{
    let mut r = "/clubs/".to_owned();
    let c = i64_to_decimal(form.club_id);
    r.append(c.as_str());
    r.append("/events/");
    let e = i64_to_decimal(form.event_id);
    r.append(e.as_str());
    r.append("/groups/");
    let g = u64_to_decimal(form.booking_group_id as u64);
    r.append(g.as_str());
    r.append("/schedule?error=");
    r.append(code);
    r
}

/// A stored RFC 3339 time as shown in the zone listed under `zone`
/// (`Sat 20 Jun 2026, 10:00 AEST`); the stored text itself when it cannot be
/// read or written.
pub open spec fn local_display(stored: Seq<char>, zone: Seq<char>) -> Seq<char> {
    match rfc3339_instant(stored) {
        None => stored,
        Some(t) => match zoned_text(t, zone, "%a %d %b %Y, %H:%M %Z"@) {
            Some(text) => text,
            None => stored,
        },
    }
}

/// Format a stored RFC 3339 UTC time in a club's zone for display; the stored
/// text itself when it cannot be read.
pub fn utc_to_local_display(rfc3339: &str, zone: &Zone) -> (r: String)
    ensures
        r@ == local_display(rfc3339@, zone.zone_name()),
{
    match parse_rfc3339(rfc3339) {
        Ok(t) => match format_in_zone(t, zone, "%a %d %b %Y, %H:%M %Z") {
            Some(s) => s,
            None => rfc3339.to_owned(),
        },
        Err(_) => rfc3339.to_owned(),
    }
}

/// Only a pending job may be cancelled.
pub fn can_cancel(status: &str) -> (r: bool)
    ensures
        r == (status@ == "pending"@),
{
    status.to_owned() == "pending".to_owned()
}

} // verus!
