//! A bookable tee slot of a booking sheet and the people in it.
use vstd::prelude::*;

verus! {

/// The groups of one sheet section (absent when the section has none).
#[derive(Clone)]
pub struct BookingGroups {
    pub groups: Option<Vec<BookingGroup>>,
}

/// A bookable tee slot within a section. Fields mirror the club's sheet.
#[derive(Clone)]
pub struct BookingGroup {
    pub id: u32,
    /// Capacity of the slot (e.g. 4 players).
    pub size: u32,
    pub last_modified: String,
    pub last_modifier_id: u32,
    /// Whether this slot reads as open right now (unreliable; see
    /// [`BookingGroup::is_schedulable`]).
    pub active: bool,
    pub time: String,
    pub status_code: u32,
    pub require_gender: bool,
    pub require_golf_link: bool,
    pub require_handicap: bool,
    pub require_home_club: bool,
    pub visitor_accepted: bool,
    pub member_accepted: bool,
    pub public_member_accepted: bool,
    pub nine_holes: bool,
    pub eighteen_holes: bool,
    pub booking_entries: BookingEntries,
}

/// The standard tee-group capacity, used when a sheet omits the `size`
/// attribute.
pub fn default_size() -> (r: u32)
    ensures
        r == 4,
{
    4
}

/// The people currently in a slot.
#[derive(Clone)]
pub struct BookingEntries {
    pub entries: Vec<BookingEntry>,
}

/// A person occupying a slot. The handicap is kept as the bit pattern of the
/// club's single-precision value.
#[derive(Clone)]
pub struct BookingEntry {
    pub id: u32,
    pub kind: String,
    pub index: u32,
    pub person_name: String,
    pub membership_number: Option<String>,
    /// The player's home club: present for visitors, absent for members.
    pub home_club: Option<String>,
    pub gender: Option<String>,
    pub handicap_bits: Option<u32>,
    pub golf_link_no: Option<String>,
}

impl Default for BookingEntry {
    fn default() -> (r: Self)
        ensures
            r.id == 0 && r.index == 0 && r.kind@.len() == 0 && r.person_name@.len() == 0,
            r.membership_number is None && r.home_club is None && r.gender is None,
            r.handicap_bits is None && r.golf_link_no is None,
    {
        BookingEntry {
            id: 0,
            kind: String::new(),
            index: 0,
            person_name: String::new(),
            membership_number: None,
            home_club: None,
            gender: None,
            handicap_bits: None,
            golf_link_no: None,
        }
    }
}

impl Default for BookingEntries {
    fn default() -> (r: Self)
        ensures
            r.entries@.len() == 0,
    {
        BookingEntries { entries: Vec::new() }
    }
}

impl Default for BookingGroups {
    fn default() -> (r: Self)
        ensures
            r.groups is None,
    {
        BookingGroups { groups: None }
    }
}

impl Default for BookingGroup {
    /// An all-zero slot: no capacity, no flags, no entries.
    fn default() -> (r: Self)
        ensures
            r.id == 0 && r.size == 0 && r.last_modifier_id == 0 && r.status_code == 0,
            r.last_modified@.len() == 0 && r.time@.len() == 0,
            !r.active && !r.require_gender && !r.require_golf_link && !r.require_handicap,
            !r.require_home_club && !r.visitor_accepted && !r.member_accepted,
            !r.public_member_accepted && !r.nine_holes && !r.eighteen_holes,
            r.booking_entries.entries@.len() == 0,
    {
        BookingGroup {
            id: 0,
            size: 0,
            last_modified: String::new(),
            last_modifier_id: 0,
            active: false,
            time: String::new(),
            status_code: 0,
            require_gender: false,
            require_golf_link: false,
            require_handicap: false,
            require_home_club: false,
            visitor_accepted: false,
            member_accepted: false,
            public_member_accepted: false,
            nine_holes: false,
            eighteen_holes: false,
            booking_entries: BookingEntries { entries: Vec::new() },
        }
    }
}

/// Display label of each eligibility requirement.
pub open spec fn label_if(flag: bool, label: Seq<char>) -> Seq<Seq<char>> {
    if flag {
        seq![label]
    } else {
        Seq::empty()
    }
}

impl BookingGroup {
    /// 9 or 18 holes, if specified (9 wins when both are set).
    pub open spec fn holes_spec(&self) -> Option<u32> {
        if self.nine_holes {
            Some(9)
        } else if self.eighteen_holes {
            Some(18)
        } else {
            None
        }
    }

    pub fn holes(&self) -> (r: Option<u32>)
        ensures
            r == self.holes_spec(),
    {
        if self.nine_holes {
            Some(9)
        } else if self.eighteen_holes {
            Some(18)
        } else {
            None
        }
    }

    /// People currently in the slot.
    pub fn entry_count(&self) -> (r: usize)
        ensures
            r == self.booking_entries.entries@.len(),
    {
        self.booking_entries.entries.len()
    }

    /// Every seat is taken.
    pub open spec fn is_full_spec(&self) -> bool {
        self.booking_entries.entries@.len() >= self.size
    }

    /// No free places left.
    pub fn is_full(&self) -> (r: bool)
        ensures
            r == self.is_full_spec(),
    {
        self.entry_count() >= self.size as usize
    }

    /// Whether members may book this slot at all (bookings are always made as
    /// a member).
    pub fn accepts_members(&self) -> (r: bool)
        ensures
            r == self.member_accepted,
    {
        self.member_accepted
    }

    /// Has a free seat we could take: accepts members and isn't full.
    pub open spec fn is_schedulable_spec(&self) -> bool {
        self.member_accepted && !self.is_full_spec()
    }

    pub fn is_schedulable(&self) -> (r: bool)
        ensures
            r == self.is_schedulable_spec(),
    {
        self.accepts_members() && !self.is_full()
    }

    /// Bookable this moment: the slot itself is active (its sheet open) and
    /// has a member seat free.
    pub open spec fn is_bookable_now_spec(&self) -> bool {
        self.active && self.is_schedulable_spec()
    }

    pub fn is_bookable_now(&self) -> (r: bool)
        ensures
            r == self.is_bookable_now_spec(),
    {
        self.active && self.is_schedulable()
    }

    /// Seats decide: a slot is full exactly when its entries have reached its
    /// size, schedulable exactly when it accepts members and has a free seat,
    /// and bookable now exactly when it is also active.
    pub proof fn law_seats_decide(&self)
        ensures
            self.is_full_spec() <==> self.booking_entries.entries@.len() >= self.size,
            self.is_schedulable_spec() <==> (self.member_accepted
                && self.booking_entries.entries@.len() < self.size),
            self.is_bookable_now_spec() <==> (self.active && self.member_accepted
                && self.booking_entries.entries@.len() < self.size),
    {
    }

    /// The slot's eligibility rules for display, in a fixed order.
    pub open spec fn requirement_labels_spec(&self) -> Seq<Seq<char>> {
        label_if(self.visitor_accepted, "Visitors OK"@) + label_if(
            self.require_golf_link,
            "GolfLink required"@,
        ) + label_if(self.require_handicap, "Handicap required"@) + label_if(
            self.require_home_club,
            "Home club required"@,
        ) + label_if(self.require_gender, "Gender required"@)
    }

    pub fn requirement_labels(&self) -> (r: Vec<&'static str>)
        ensures
            r@.map_values(|s: &'static str| s@) == self.requirement_labels_spec(),
    {
        let mut labels: Vec<&'static str> = Vec::new();
        if self.visitor_accepted {
            labels.push("Visitors OK");
        }
        let ghost a = labels@;
        if self.require_golf_link {
            labels.push("GolfLink required");
        }
        let ghost b = labels@;
        if self.require_handicap {
            labels.push("Handicap required");
        }
        let ghost c = labels@;
        if self.require_home_club {
            labels.push("Home club required");
        }
        let ghost d = labels@;
        if self.require_gender {
            labels.push("Gender required");
        }
        proof {
            let f = |s: &'static str| s@;
            assert(a.map_values(f) =~= label_if(self.visitor_accepted, "Visitors OK"@));
            assert(b.map_values(f) =~= a.map_values(f) + label_if(
                self.require_golf_link,
                "GolfLink required"@,
            ));
            assert(c.map_values(f) =~= b.map_values(f) + label_if(
                self.require_handicap,
                "Handicap required"@,
            ));
            assert(d.map_values(f) =~= c.map_values(f) + label_if(
                self.require_home_club,
                "Home club required"@,
            ));
            assert(labels@.map_values(f) =~= d.map_values(f) + label_if(
                self.require_gender,
                "Gender required"@,
            ));
        }
        labels
    }

    /// Provisional category from the status code: 3070 competition, 3071
    /// casual; other codes have none.
    pub open spec fn category_label_spec(&self) -> Option<Seq<char>> {
        if self.status_code == 3070 {
            Some("Competition"@)
        } else if self.status_code == 3071 {
            Some("Casual"@)
        } else {
            None
        }
    }

    pub fn category_label(&self) -> (r: Option<&'static str>)
        ensures
            match r {
                Some(s) => self.category_label_spec() == Some(s@),
                None => self.category_label_spec() is None,
            },
    {
        if self.status_code == 3070 {
            Some("Competition")
        } else if self.status_code == 3071 {
            Some("Casual")
        } else {
            None
        }
    }
}

} // verus!
