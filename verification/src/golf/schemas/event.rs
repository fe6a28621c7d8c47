//! One entry of a club's events list.
use crate::text::{decimal, trim};
use crate::text::trimmed;
use crate::time::{datetime_input_value, naive_parse, parse_naive, CivilDate, CivilDateTime};
use vstd::prelude::*;
use vstd::string::*;

verus! {

/// A single event in the club's events list. Fields mirror the club's API.
#[derive(Clone)]
pub struct GolfEvent {
    pub id: u32,
    pub event_date: CivilDate,
    pub event_status_code: Option<u32>,
    pub event_status_code_friendly: Option<String>,
    pub title: String,
    pub booking_resource_id: Option<u32>,
    pub is_lottery: Option<bool>,
    pub can_open_event: Option<bool>,
    pub has_competition: Option<bool>,
    pub event_type_code: Option<u32>,
    pub event_category_code: Option<u32>,
    pub event_time_code_friendly: Option<String>,
    pub auto_open_date_time_display: Option<String>,
    pub availability: u32,
    pub is_ballot: bool,
    pub is_ballot_open: bool,
    pub is_results: bool,
    pub is_open: bool,
    pub is_female: bool,
    pub is_male: bool,
    pub is_matchplay: bool,
}

/// The formats the club is known to use for an event's auto-open time, tried
/// in order.
pub open spec fn auto_open_formats() -> Seq<Seq<char>> {
    seq![
        "%d/%m/%Y %H:%M"@,
        "%d/%m/%Y %I:%M %p"@,
        "%d/%m/%Y %I:%M%p"@,
        "%d/%m/%Y %l:%M %p"@,
        "%d-%m-%Y %H:%M"@,
        "%Y-%m-%d %H:%M"@,
        "%Y-%m-%dT%H:%M:%S"@,
        "%Y-%m-%dT%H:%M"@,
        "%a %d %b %Y %I:%M %p"@,
        "%A %d %B %Y %I:%M %p"@,
        "%d %b %Y %I:%M %p"@,
        "%d %B %Y %I:%M %p"@,
        "%d %b %Y %H:%M"@,
    ]
}

fn auto_open_format(i: usize) -> (f: &'static str)
    requires
        i < 13,
    ensures
        f@ == auto_open_formats()[i as int],
{
    if i == 0 {
        "%d/%m/%Y %H:%M"
    } else if i == 1 {
        "%d/%m/%Y %I:%M %p"
    } else if i == 2 {
        "%d/%m/%Y %I:%M%p"
    } else if i == 3 {
        "%d/%m/%Y %l:%M %p"
    } else if i == 4 {
        "%d-%m-%Y %H:%M"
    } else if i == 5 {
        "%Y-%m-%d %H:%M"
    } else if i == 6 {
        "%Y-%m-%dT%H:%M:%S"
    } else if i == 7 {
        "%Y-%m-%dT%H:%M"
    } else if i == 8 {
        "%a %d %b %Y %I:%M %p"
    } else if i == 9 {
        "%A %d %B %Y %I:%M %p"
    } else if i == 10 {
        "%d %b %Y %I:%M %p"
    } else if i == 11 {
        "%d %B %Y %I:%M %p"
    } else {
        "%d %b %Y %H:%M"
    }
}

/// The first of the formats from position `i` on that reads `raw`.
pub open spec fn first_parse(raw: Seq<char>, i: nat) -> Option<CivilDateTime>
    decreases 13 - i,
{
    if i >= 13 {
        None
    } else {
        match naive_parse(raw, auto_open_formats()[i as int]) {
            Some(c) => Some(c),
            None => first_parse(raw, i + 1),
        }
    }
}

proof fn lemma_first_parse_skip(raw: Seq<char>, i: nat)
    requires
        i <= 13,
        forall|k: int| 0 <= k < i ==> naive_parse(raw, #[trigger] auto_open_formats()[k]) is None,
    ensures
        first_parse(raw, 0) == first_parse(raw, i),
    decreases i,
{
    if i > 0 {
        lemma_first_parse_skip(raw, (i - 1) as nat);
        assert(naive_parse(raw, auto_open_formats()[i - 1]) is None);
    }
}

/// The club-local time an event's sheet opens: its display text, trimmed,
/// read with the first known format that fits; `None` if absent, blank or
/// unreadable.
pub open spec fn auto_open_spec(display: Option<Seq<char>>) -> Option<CivilDateTime> {
    match display {
        None => None,
        Some(d) => if trimmed(d).len() == 0 {
            None
        } else {
            first_parse(trimmed(d), 0)
        },
    }
}

pub open spec fn opt_string_view(o: Option<String>) -> Option<Seq<char>> {
    match o {
        Some(s) => Some(s@),
        None => None,
    }
}

/// Position `i` holds the first event with the given id.
pub open spec fn first_with_id(s: Seq<GolfEvent>, i: int, id: u32) -> bool {
    0 <= i < s.len() && s[i].id == id && forall|j: int| 0 <= j < i ==> #[trigger] s[j].id != id
}

/// The first event in the list with the given id.
pub fn find_event(events: Vec<GolfEvent>, event_id: u32) -> (r: Option<GolfEvent>)
    ensures
        match r {
            Some(e) => exists|i: int| #[trigger] first_with_id(events@, i, event_id) && events@[i] == e,
            None => forall|i: int| 0 <= i < events@.len() ==> #[trigger] events@[i].id != event_id,
        },
{
    let n = events.len();
    let mut i: usize = 0;
    while i < n
        invariant
            n == events@.len(),
            i <= n,
            forall|j: int| 0 <= j < i ==> #[trigger] events@[j].id != event_id,
        decreases n - i,
    {
        if events[i].id == event_id {
            assert(first_with_id(events@, i as int, event_id));
            let ghost orig = events@;
            let mut rest = events;
            let e = rest.swap_remove(i);
            assert(orig[i as int] == e);
            return Some(e);
        }
        i = i + 1;
    }
    None
}

impl GolfEvent {
    /// A human-readable status: the friendly string, else the code, else
    /// "Unknown".
    pub open spec fn status_spec(&self) -> Seq<char> {
        match self.event_status_code_friendly {
            Some(s) => s@,
            None => match self.event_status_code {
                Some(c) => decimal(c as nat),
                None => "Unknown"@,
            },
        }
    }

    pub fn status(&self) -> (r: String)
        ensures
            r@ == self.status_spec(),
    {
        match &self.event_status_code_friendly {
            Some(s) => s.clone(),
            None => match self.event_status_code {
                Some(c) => crate::text::u64_to_decimal(c as u64),
                None => "Unknown".to_owned(),
            },
        }
    }

    /// Who the event accepts, from the male/female flags.
    pub open spec fn gender_label_spec(&self) -> Seq<char> {
        if self.is_male && self.is_female {
            "Men & Women"@
        } else if self.is_male {
            "Men"@
        } else if self.is_female {
            "Women"@
        } else {
            "Open"@
        }
    }

    pub fn gender_label(&self) -> (r: &'static str)
        ensures
            r@ == self.gender_label_spec(),
    {
        if self.is_male && self.is_female {
            "Men & Women"
        } else if self.is_male {
            "Men"
        } else if self.is_female {
            "Women"
        } else {
            "Open"
        }
    }

    /// Parse the auto-open display text into a wall-clock time.
    pub fn auto_open_local(&self) -> (r: Option<CivilDateTime>)
        ensures
            r == auto_open_spec(opt_string_view(self.auto_open_date_time_display)),
            r matches Some(c) ==> c.wf(),
    {
        let display = match &self.auto_open_date_time_display {
            Some(d) => d,
            None => return None,
        };
        let raw = trim(display.as_str());
        if raw.as_str().is_empty() {
            return None;
        }
        let ghost d = display@;
        assert(opt_string_view(self.auto_open_date_time_display) == Some(d));
        let mut i: usize = 0;
        while i < 13
            invariant
                opt_string_view(self.auto_open_date_time_display) == Some(d),
                raw@ == trimmed(d),
                raw@.len() > 0,
                i <= 13,
                forall|k: int| 0 <= k < i ==> naive_parse(raw@, #[trigger] auto_open_formats()[k]) is None,
            decreases 13 - i,
        {
            let fmt = auto_open_format(i);
            match parse_naive(raw.as_str(), fmt) {
                Some(p) => {
                    proof {
                        lemma_first_parse_skip(raw@, i as nat);
                    }
                    return Some(p);
                },
                None => {},
            }
            i = i + 1;
        }
        proof {
            lemma_first_parse_skip(raw@, 13);
        }
        None
    }

    /// The auto-open time as a `datetime-local` input value, if readable.
    pub fn auto_open_input(&self) -> (r: Option<String>)
        ensures
            match auto_open_spec(opt_string_view(self.auto_open_date_time_display)) {
                Some(c) => r matches Some(s) && s@ == c.input_value(),
                None => r is None,
            },
    {
        match self.auto_open_local() {
            Some(c) => Some(datetime_input_value(c)),
            None => None,
        }
    }
}

} // verus!
