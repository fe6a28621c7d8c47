//! A single event with its booking sheet.
use super::booking_group::{BookingGroup, BookingGroups};
use crate::time::CivilDateTime;
use vstd::prelude::*;

verus! {

/// An event's booking sheet: sections of tee groups.
#[derive(Clone)]
pub struct BookingEvent {
    pub active: bool,
    pub id: u32,
    pub date: CivilDateTime,
    pub name: String,
    /// Who the event is open to: "All", "Male", "Female".
    pub gender: Option<String>,
    pub last_modified: String,
    pub last_modifier_id: Option<u32>,
    pub booking_sections: BookingSections,
}

#[derive(Clone)]
pub struct BookingSections {
    pub sections: Vec<BookingSection>,
}

#[derive(Clone)]
pub struct BookingSection {
    pub last_modified: String,
    pub last_modifier_id: u32,
    pub id: u32,
    pub active: bool,
    pub name: String,
    /// Display order of the section within the sheet.
    pub index: Option<u32>,
    pub booking_groups: BookingGroups,
}

/// The groups of a section, in sheet order.
pub open spec fn section_groups(s: BookingSection) -> Seq<BookingGroup> {
    match s.booking_groups.groups {
        Some(v) => v@,
        None => Seq::empty(),
    }
}

/// Group `j` of section `i` has the wanted id.
pub open spec fn group_matches(sections: Seq<BookingSection>, i: int, j: int, id: u32) -> bool {
    0 <= i < sections.len() && 0 <= j < section_groups(sections[i]).len() && section_groups(
        sections[i],
    )[j].id == id
}

/// Position `(i, j)` comes before `(i2, j2)` in sheet order.
pub open spec fn earlier(i: int, j: int, i2: int, j2: int) -> bool {
    i < i2 || (i == i2 && j < j2)
}

impl BookingEvent {
    /// Find a booking group anywhere in the sheet by its id: the first in
    /// sheet order (sections in order, groups in order within each).
    pub fn find_group(&self, id: u32) -> (r: Option<&BookingGroup>)
        ensures
            match r {
                Some(g) => exists|i: int, j: int|
                    group_matches(self.booking_sections.sections@, i, j, id) && *g
                        == section_groups(self.booking_sections.sections@[i])[j] && forall|
                        i2: int,
                        j2: int,
                    | #![trigger group_matches(self.booking_sections.sections@, i2, j2, id)] earlier(i2, j2, i, j) ==> !group_matches(
                        self.booking_sections.sections@,
                        i2,
                        j2,
                        id,
                    ),
                None => forall|i: int, j: int|
                    !#[trigger] group_matches(self.booking_sections.sections@, i, j, id),
            },
    {
        let sections = &self.booking_sections.sections;
        let ghost ss = sections@;
        let n = sections.len();
        let mut i: usize = 0;
        while i < n
            invariant
                n == ss.len(),
                ss == self.booking_sections.sections@,
                sections@ == ss,
                i <= n,
                forall|i2: int, j2: int|
                    0 <= i2 < i ==> !#[trigger] group_matches(ss, i2, j2, id),
            decreases n - i,
        {
            match &sections[i].booking_groups.groups {
                None => {},
                Some(groups) => {
                    let m = groups.len();
                    let mut j: usize = 0;
                    while j < m
                        invariant
                            n == ss.len(),
                            ss == self.booking_sections.sections@,
                            sections@ == ss,
                            i < n,
                            section_groups(ss[i as int]) == groups@,
                            m == groups@.len(),
                            j <= m,
                            forall|i2: int, j2: int|
                                0 <= i2 < i ==> !#[trigger] group_matches(ss, i2, j2, id),
                            forall|j2: int| 0 <= j2 < j ==> !#[trigger] group_matches(ss, i as int, j2, id),
                        decreases m - j,
                    {
                        if groups[j].id == id {
                            let g = &groups[j];
                            assert(group_matches(ss, i as int, j as int, id));
                            assert forall|i2: int, j2: int|
                                #![trigger group_matches(ss, i2, j2, id)]
                                earlier(i2, j2, i as int, j as int) implies !group_matches(ss, i2, j2, id) by {}
                            return Some(g);
                        }
                        j = j + 1;
                    }
                },
            }
            assert forall|i2: int, j2: int| 0 <= i2 < i + 1 implies !#[trigger] group_matches(ss, i2, j2, id) by {}
            i = i + 1;
        }
        None
    }
}

} // verus!
