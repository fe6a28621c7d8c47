//! Event browsing, immediate booking and the schedule page: the rules for
//! what is shown and when a booking may be attempted.
use crate::golf::client::{BookingError, BookingErrorView};
use crate::golf::schemas::booking_group::BookingGroup;
use crate::golf::schemas::event::GolfEvent;
use crate::text::{concat, decimal, u64_to_decimal};
use vstd::prelude::*;
use vstd::string::*;

verus! {

/// The `error` query parameter of the schedule page.
pub struct ScheduleQuery {
    pub error: Option<String>,
}

/// The message shown for an error code bounced back to the schedule page.
pub open spec fn schedule_error_text(code: Seq<char>) -> Seq<char> {
    if code == "past"@ {
        "That time is in the past."@
    } else if code == "badtime"@ {
        "Couldn't read that date/time."@
    } else if code == "unknownclub"@ {
        "That club no longer exists."@
    } else if code == "notschedulable"@ {
        "That slot can't be scheduled — it's full or doesn't accept member bookings."@
    } else {
        "Couldn't schedule that booking."@
    }
}

pub fn schedule_error_message(code: &str) -> (r: &'static str)
    ensures
        r@ == schedule_error_text(code@),
{
    let c = code.to_owned();
    if c == "past".to_owned() {
        "That time is in the past."
    } else if c == "badtime".to_owned() {
        "Couldn't read that date/time."
    } else if c == "unknownclub".to_owned() {
        "That club no longer exists."
    } else if c == "notschedulable".to_owned() {
        "That slot can't be scheduled — it's full or doesn't accept member bookings."
    } else {
        "Couldn't schedule that booking."
    }
}

/// A compact summary of an event's metadata, shown on the detail page.
pub struct EventSummary {
    pub status: String,
    pub gender: String,
    pub availability: u32,
    pub type_code: Option<u32>,
    pub category_code: Option<u32>,
    pub time_code: Option<String>,
    pub flags: Vec<&'static str>,
    pub is_open: bool,
}

pub open spec fn flag_if(on: bool, label: Seq<char>) -> Seq<Seq<char>> {
    if on {
        seq![label]
    } else {
        Seq::empty()
    }
}

/// The flags shown for an event, in order.
pub open spec fn event_flags(e: &GolfEvent) -> Seq<Seq<char>> {
    flag_if(e.is_lottery == Some(true), "Lottery"@) + flag_if(
        e.has_competition == Some(true),
        "Competition"@,
    ) + flag_if(e.is_matchplay, "Matchplay"@) + flag_if(e.is_ballot_open, "Ballot open"@)
        + flag_if(e.is_results, "Results posted"@)
}

pub fn event_summary(e: &GolfEvent) -> (r: EventSummary)
    ensures
        r.status@ == e.status_spec(),
        r.gender@ == e.gender_label_spec(),
        r.availability == e.availability,
        r.type_code == e.event_type_code,
        r.category_code == e.event_category_code,
        r.time_code == e.event_time_code_friendly,
        r.flags@.map_values(|s: &'static str| s@) == event_flags(e),
        r.is_open == e.is_open,
{
    let mut flags: Vec<&'static str> = Vec::new();
    let lottery = match e.is_lottery {
        Some(b) => b,
        None => false,
    };
    if lottery {
        flags.push("Lottery");
    }
    let ghost a = flags@;
    let competition = match e.has_competition {
        Some(b) => b,
        None => false,
    };
    if competition {
        flags.push("Competition");
    }
    let ghost b = flags@;
    if e.is_matchplay {
        flags.push("Matchplay");
    }
    let ghost c = flags@;
    if e.is_ballot_open {
        flags.push("Ballot open");
    }
    let ghost d = flags@;
    if e.is_results {
        flags.push("Results posted");
    }
    proof {
        let f = |s: &'static str| s@;
        assert(a.map_values(f) =~= flag_if(e.is_lottery == Some(true), "Lottery"@));
        assert(b.map_values(f) =~= a.map_values(f) + flag_if(
            e.has_competition == Some(true),
            "Competition"@,
        ));
        assert(c.map_values(f) =~= b.map_values(f) + flag_if(e.is_matchplay, "Matchplay"@));
        assert(d.map_values(f) =~= c.map_values(f) + flag_if(e.is_ballot_open, "Ballot open"@));
        assert(flags@.map_values(f) =~= d.map_values(f) + flag_if(e.is_results, "Results posted"@));
    }
    let time_code = match &e.event_time_code_friendly {
        Some(t) => Some(t.clone()),
        None => None,
    };
    EventSummary {
        status: e.status(),
        gender: e.gender_label().to_owned(),
        availability: e.availability,
        type_code: e.event_type_code,
        category_code: e.event_category_code,
        time_code,
        flags,
        is_open: e.is_open,
    }
}

/// Why a slot can't be booked now: full, or closed to members. A slot that
/// could not be found (or a sheet that could not be read) is no refusal; the
/// booking attempt itself decides.
pub open spec fn book_refusal_spec(group: Option<BookingGroup>) -> Option<Seq<char>> {
    match group {
        Some(g) => if g.is_full_spec() {
            Some("That slot is already full."@)
        } else if !g.member_accepted {
            Some("That slot doesn't accept member bookings."@)
        } else {
            None
        },
        None => None,
    }
}

/// "Book now" refuses a slot as full exactly when its entries have reached
/// its size; a slot with a free seat that accepts members is never refused;
/// one with a free seat that does not accept members is refused as such.
pub proof fn law_book_refusal_by_seats(g: BookingGroup)
    ensures
        g.booking_entries.entries@.len() >= g.size ==> book_refusal_spec(Some(g)) == Some(
            "That slot is already full."@,
        ),
        g.booking_entries.entries@.len() < g.size && g.member_accepted ==> book_refusal_spec(
            Some(g),
        ) is None,
        g.booking_entries.entries@.len() < g.size && !g.member_accepted ==> book_refusal_spec(
            Some(g),
        ) == Some("That slot doesn't accept member bookings."@),
        book_refusal_spec(None) is None,
{
}

pub open spec fn opt_ref(g: Option<&BookingGroup>) -> Option<BookingGroup> {
    match g {
        Some(x) => Some(*x),
        None => None,
    }
}

pub fn book_refusal(group: Option<&BookingGroup>) -> (r: Option<String>)
    ensures
        match r {
            Some(m) => book_refusal_spec(opt_ref(group)) == Some(m@),
            None => book_refusal_spec(opt_ref(group)) is None,
        },
{
    match group {
        Some(g) => {
            if g.is_full() {
                Some("That slot is already full.".to_owned())
            } else if !g.accepts_members() {
                Some("That slot doesn't accept member bookings.".to_owned())
            } else {
                None
            }
        },
        None => None,
    }
}

/// A found slot that can't be scheduled (full or closed to members); an
/// unknown slot is not flagged.
pub fn slot_full(group: Option<&BookingGroup>) -> (r: bool)
    ensures
        r == (group matches Some(g) && !g.is_schedulable_spec()),
{
    match group {
        Some(g) => !g.is_schedulable(),
        None => false,
    }
}

/// The banner after a booking attempt: success flag and text.
pub open spec fn booking_flash_spec(r: Result<(), BookingErrorView>) -> (bool, Seq<char>) {
    match r {
        Ok(()) => (true, "Booked."@),
        Err(e) => (false, "Booking failed: "@ + e.message()),
    }
}

pub fn booking_flash(r: &Result<(), BookingError>) -> (f: (bool, String))
    ensures
        (f.0, f.1@) == booking_flash_spec(crate::golf::client::booking_result_view(*r)),
{
    match r {
        Ok(()) => (true, "Booked.".to_owned()),
        Err(e) => (false, concat("Booking failed: ", e.message().as_str())),
    }
}

/// The banner text of a dry-run "book now".
pub open spec fn dry_run_text(group_id: u32) -> Seq<char> {
    "Dry run — would book group "@ + decimal(group_id as nat)
        + " now (set DRY_RUN=false to book for real)."@
}

/// The banner of a dry-run "book now".
pub fn dry_run_flash(group_id: u32) -> (r: String)
    ensures
        r@ == dry_run_text(group_id),
{
    let mut r = "Dry run — would book group ".to_owned();
    let g = u64_to_decimal(group_id as u64);
    r.append(g.as_str());
    r.append(" now (set DRY_RUN=false to book for real).");
    r
}

/// What a "book now" request does: refuse a slot the club would reject,
/// simulate the booking in a dry run, or send the booking request.
pub enum BookNow {
    /// Not booked, with the reason shown.
    Refuse(String),
    /// A dry run: nothing is sent; the banner says what would have been.
    Simulate(String),
    /// Send the booking request.
    Book,
}

/// Decide a "book now" request from the slot check and the dry-run switch.
/// A refusal wins even in a dry run, so a dry run reports what a real
/// booking would hit; a dry run never sends a booking request.
pub fn book_now_action(refusal: Option<String>, dry_run: bool, group_id: u32) -> (a: BookNow)
    ensures
        match refusal {
            Some(m) => a matches BookNow::Refuse(t) && t@ == m@,
            None => if dry_run {
                a matches BookNow::Simulate(t) && t@ == dry_run_text(group_id)
            } else {
                a is Book
            },
        },
{
    match refusal {
        Some(m) => BookNow::Refuse(m),
        None => {
            if dry_run {
                BookNow::Simulate(dry_run_flash(group_id))
            } else {
                BookNow::Book
            }
        },
    }
}

} // verus!
