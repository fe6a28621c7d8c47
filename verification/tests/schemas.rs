use golf_booker::golf::schemas::booking_event::{BookingEvent, BookingSection, BookingSections};
use golf_booker::golf::schemas::booking_group::{
    default_size, BookingEntries, BookingEntry, BookingGroup, BookingGroups,
};
use golf_booker::golf::schemas::event::{find_event, GolfEvent};
use golf_booker::time::{CivilDate, CivilDateTime};

fn group_with(entries: usize, size: u32) -> BookingGroup {
    BookingGroup {
        size,
        member_accepted: true,
        booking_entries: BookingEntries {
            entries: (0..entries).map(|_| BookingEntry::default()).collect(),
        },
        ..BookingGroup::default()
    }
}

#[test]
fn holes_prefers_nine_then_eighteen_then_none() {
    let nine = BookingGroup { nine_holes: true, eighteen_holes: true, ..BookingGroup::default() };
    assert_eq!(nine.holes(), Some(9));
    let eighteen = BookingGroup { eighteen_holes: true, ..BookingGroup::default() };
    assert_eq!(eighteen.holes(), Some(18));
    assert_eq!(BookingGroup::default().holes(), None);
}

#[test]
fn is_full_is_a_seat_count_boundary() {
    assert!(!group_with(3, 4).is_full());
    assert!(group_with(4, 4).is_full());
    assert!(group_with(5, 4).is_full());
}

#[test]
fn schedulable_requires_member_access_and_a_free_seat() {
    assert!(group_with(2, 4).is_schedulable());
    assert!(!group_with(4, 4).is_schedulable());
    let closed = BookingGroup { member_accepted: false, ..group_with(0, 4) };
    assert!(!closed.is_schedulable());
}

#[test]
fn category_label_maps_known_codes_only() {
    let cat = |c| BookingGroup { status_code: c, ..BookingGroup::default() }.category_label();
    assert_eq!(cat(3070), Some("Competition"));
    assert_eq!(cat(3071), Some("Casual"));
    assert_eq!(cat(9999), None);
}

#[test]
fn requirement_labels_are_empty_when_nothing_required() {
    assert!(BookingGroup::default().requirement_labels().is_empty());
}

#[test]
fn surfaces_category_and_requirement_labels() {
    let group = BookingGroup {
        status_code: 3070,
        require_gender: true,
        require_golf_link: true,
        visitor_accepted: true,
        member_accepted: true,
        ..group_with(0, 4)
    };
    assert_eq!(group.category_label(), Some("Competition"));
    assert_eq!(
        group.requirement_labels(),
        vec!["Visitors OK", "GolfLink required", "Gender required"]
    );
}

#[test]
fn size_defaults_to_a_fourball_when_absent() {
    assert_eq!(default_size(), 4);
}

#[test]
fn member_closed_slot_is_not_bookable_even_when_empty() {
    let group = BookingGroup {
        active: true,
        visitor_accepted: true,
        public_member_accepted: true,
        member_accepted: false,
        ..group_with(0, 4)
    };
    assert!(!group.is_full());
    assert!(!group.accepts_members());
    assert!(!group.is_bookable_now());
    assert!(!group.is_schedulable());
}

fn entry(id: u32, index: u32, name: &str) -> BookingEntry {
    BookingEntry {
        id,
        kind: "member".into(),
        index,
        person_name: name.into(),
        ..BookingEntry::default()
    }
}

/// The sheet's two slots: 07:00 taken by four members on a closed sheet, and
/// 07:08 empty and active.
fn sample_groups() -> Vec<BookingGroup> {
    let full = BookingGroup {
        id: 5001,
        size: 4,
        last_modified: "2026-06-01".into(),
        last_modifier_id: 1,
        active: false,
        time: "07:00".into(),
        status_code: 3070,
        member_accepted: true,
        eighteen_holes: true,
        booking_entries: BookingEntries {
            entries: vec![
                entry(1, 0, "J. Smith"),
                entry(2, 1, "A. Jones"),
                entry(3, 2, "B. Brown"),
                entry(4, 3, "C. Green"),
            ],
        },
        ..BookingGroup::default()
    };
    let open = BookingGroup {
        id: 5002,
        size: 4,
        last_modified: "2026-06-01".into(),
        last_modifier_id: 1,
        active: true,
        time: "07:08".into(),
        status_code: 3071,
        member_accepted: true,
        eighteen_holes: true,
        ..BookingGroup::default()
    };
    vec![full, open]
}

#[test]
fn full_closed_slot_is_neither_bookable_nor_schedulable() {
    let groups = sample_groups();
    let full = &groups[0];
    assert!(full.is_full());
    assert!(!full.is_bookable_now());
    assert!(!full.is_schedulable());
}

#[test]
fn open_empty_slot_is_bookable_and_schedulable() {
    let groups = sample_groups();
    let open = &groups[1];
    assert!(!open.is_full());
    assert!(open.is_bookable_now());
    assert!(open.is_schedulable());
}

fn section(groups: Option<Vec<BookingGroup>>) -> BookingSection {
    BookingSection {
        last_modified: String::new(),
        last_modifier_id: 1,
        id: 1,
        active: false,
        name: "Front Nine".into(),
        index: Some(1),
        booking_groups: BookingGroups { groups },
    }
}

fn with_id(id: u32, time: &str) -> BookingGroup {
    BookingGroup { id, time: time.into(), ..group_with(0, 4) }
}

#[test]
fn find_group_searches_every_section_in_order() {
    let event = BookingEvent {
        active: false,
        id: 101,
        date: CivilDateTime {
            date: CivilDate { year: 2026, month: 6, day: 20 },
            hour: 7,
            minute: 0,
            second: 0,
            nanosecond: 0,
        },
        name: "Saturday Comp".into(),
        gender: Some("All".into()),
        last_modified: String::new(),
        last_modifier_id: Some(1),
        booking_sections: BookingSections {
            sections: vec![
                section(None),
                section(Some(vec![with_id(5001, "07:00"), with_id(5002, "07:08")])),
                section(Some(vec![with_id(5002, "12:00")])),
            ],
        },
    };
    assert_eq!(event.find_group(5002).map(|g| g.time.as_str()), Some("07:08"));
    assert_eq!(event.find_group(5001).map(|g| g.time.as_str()), Some("07:00"));
    assert!(event.find_group(9).is_none());
}

fn event(display: Option<&str>) -> GolfEvent {
    GolfEvent {
        id: 1,
        event_date: CivilDate { year: 2026, month: 6, day: 20 },
        event_status_code: None,
        event_status_code_friendly: None,
        title: "x".into(),
        booking_resource_id: None,
        is_lottery: None,
        can_open_event: None,
        has_competition: None,
        event_type_code: None,
        event_category_code: None,
        event_time_code_friendly: None,
        auto_open_date_time_display: display.map(|s| s.into()),
        availability: 0,
        is_ballot: false,
        is_ballot_open: false,
        is_results: false,
        is_open: false,
        is_female: false,
        is_male: false,
        is_matchplay: false,
    }
}

#[test]
fn parses_auto_open_display_formats() {
    let mk = |s: &str| event(Some(s));
    assert_eq!(mk("11/06/2026 07:00").auto_open_input().as_deref(), Some("2026-06-11T07:00"));
    assert_eq!(mk("11/06/2026 7:00 AM").auto_open_input().as_deref(), Some("2026-06-11T07:00"));
    assert!(mk("sometime next week").auto_open_input().is_none());
    assert!(mk("").auto_open_input().is_none());
}

#[test]
fn auto_open_trims_and_tries_later_formats() {
    assert_eq!(
        event(Some("  2026-06-11 19:30 ")).auto_open_input().as_deref(),
        Some("2026-06-11T19:30")
    );
    assert!(event(None).auto_open_input().is_none());
    let parsed = event(Some("11/06/2026 07:00")).auto_open_local().unwrap();
    assert_eq!(parsed.date, CivilDate { year: 2026, month: 6, day: 11 });
}

#[test]
fn gender_label_reflects_flags() {
    let mut e = event(None);
    e.is_male = true;
    assert_eq!(e.gender_label(), "Men");
    e.is_female = true;
    assert_eq!(e.gender_label(), "Men & Women");
    e.is_male = false;
    assert_eq!(e.gender_label(), "Women");
    e.is_female = false;
    assert_eq!(e.gender_label(), "Open");
}

#[test]
fn status_falls_back_to_code_then_unknown() {
    let mut e = event(None);
    e.event_status_code = Some(7);
    assert_eq!(e.status(), "7");
    e.event_status_code_friendly = Some("Open".into());
    assert_eq!(e.status(), "Open");
    assert_eq!(event(None).status(), "Unknown");
}

#[test]
fn find_event_returns_the_first_match() {
    let mut a = event(None);
    a.id = 3;
    a.title = "first".into();
    let mut b = event(None);
    b.id = 3;
    b.title = "second".into();
    let found = find_event(vec![event(None), a, b], 3).unwrap();
    assert_eq!(found.title, "first");
    assert!(find_event(vec![event(None)], 3).is_none());
}
