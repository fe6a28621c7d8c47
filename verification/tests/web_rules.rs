use golf_booker::web::events::{book_now_action, BookNow};
use golf_booker::config::{parse_u16, Config, SmtpConfig};
use golf_booker::error::error_page;
use golf_booker::time::{LocalResolution, UtcInstant};
use golf_booker::web::auth::{login_outcome, reset_link, safe_next, LoginOutcome};
use golf_booker::web::clubs::{new_password, timezone_check, valid_timezone, UpdateForm};
use golf_booker::web::events::{book_refusal, schedule_error_message};
use golf_booker::web::jobs::{
    can_cancel, check_schedule, choose_instant, club_zone, local_to_utc, schedule_back_url, utc_to_local_display,
    CreateForm, ScheduleRefusal,
};
use golf_booker::web::users::{create_check, delete_check, CreateForm as UserForm};

fn rfc(s: &str) -> UtcInstant {
    let dt = chrono::DateTime::parse_from_rfc3339(s).unwrap();
    UtcInstant {
        secs: dt.timestamp(),
        nanos: dt.timestamp_subsec_nanos(),
    }
}

#[test]
fn local_to_utc_uses_club_timezone() {
    let utc = local_to_utc("2026-06-20T10:00", &club_zone("Australia/Sydney")).unwrap();
    assert_eq!(utc, rfc("2026-06-20T00:00:00+00:00"));
}

#[test]
fn local_to_utc_differs_by_zone() {
    let syd = local_to_utc("2026-06-20T10:00", &club_zone("Australia/Sydney")).unwrap();
    let utc = local_to_utc("2026-06-20T10:00", &club_zone("UTC")).unwrap();
    assert_ne!(syd, utc);
    assert_eq!((utc.secs - syd.secs) / 3600, 10);
}

#[test]
fn rejects_unparseable_time() {
    assert!(local_to_utc("not-a-time", &club_zone("UTC")).is_none());
}

#[test]
fn ambiguous_fall_back_time_picks_the_earlier_instant() {
    let utc = local_to_utc("2026-04-05T02:30", &club_zone("Australia/Sydney")).unwrap();
    assert_eq!(utc, rfc("2026-04-04T15:30:00+00:00"));
}

#[test]
fn spring_forward_gap_time_is_rejected() {
    assert!(local_to_utc("2026-10-04T02:30", &club_zone("Australia/Sydney")).is_none());
}

#[test]
fn display_roundtrips_into_zone() {
    let shown = utc_to_local_display("2026-06-20T00:00:00+00:00", &club_zone("Australia/Sydney"));
    assert!(shown.contains("10:00"), "got: {shown}");
    assert_eq!(utc_to_local_display("garbage", &club_zone("UTC")), "garbage");
}

#[test]
fn local_values_with_seconds_are_read_too() {
    let a = local_to_utc("2026-06-20T10:00:30", &club_zone("UTC")).unwrap();
    assert_eq!(a, rfc("2026-06-20T10:00:30+00:00"));
}

#[test]
fn schedule_requests_are_validated_in_order() {
    let now = UtcInstant { secs: 100, nanos: 0 };
    let later = UtcInstant { secs: 101, nanos: 0 };
    assert_eq!(check_schedule(false, Some(later), now), Err(ScheduleRefusal::UnknownClub));
    assert_eq!(check_schedule(true, None, now), Err(ScheduleRefusal::BadTime));
    assert_eq!(check_schedule(true, Some(now), now), Err(ScheduleRefusal::Past));
    assert_eq!(check_schedule(true, Some(later), now), Ok(later));
    let form = CreateForm { club_id: 3, event_id: 101, booking_group_id: 5001, scheduled_time: String::new() };
    assert_eq!(
        schedule_back_url(&form, ScheduleRefusal::BadTime.as_code()),
        "/clubs/3/events/101/groups/5001/schedule?error=badtime"
    );
    assert!(can_cancel("pending"));
    assert!(!can_cancel("running"));
}

#[test]
fn safe_next_only_allows_local_paths() {
    assert_eq!(safe_next(Some("/clubs")).as_deref(), Some("/clubs"));
    assert_eq!(safe_next(Some("//evil.example")), None);
    assert_eq!(safe_next(Some("/\\evil.example")), None);
    assert_eq!(safe_next(Some("https://evil.example")), None);
    assert_eq!(safe_next(None), None);
}

#[test]
fn login_outcomes() {
    assert!(matches!(login_outcome(false, true, &None), LoginOutcome::Refuse(m) if m == "Too many attempts. Wait a few minutes and try again."));
    assert!(matches!(login_outcome(true, false, &None), LoginOutcome::Refuse(m) if m == "Invalid username or password."));
    assert!(matches!(login_outcome(true, true, &None), LoginOutcome::Redirect(u) if u == "/"));
    assert!(matches!(login_outcome(true, true, &Some("/users".into())), LoginOutcome::Redirect(u) if u == "/users"));
    assert_eq!(reset_link("https://x", "abc"), "https://x/reset?token=abc");
}

#[test]
fn user_management_rules() {
    let bad = UserForm { username: "  ".into(), email: "".into(), password: "password1".into() };
    assert_eq!(create_check(&bad).err().as_deref(), Some("Username is required."));
    let short = UserForm { username: "newbie".into(), email: "n@example.com".into(), password: "short".into() };
    assert_eq!(create_check(&short).err().as_deref(), Some("Password must be at least 8 characters."));
    let ok = UserForm { username: " carol ".into(), email: " c@example.com ".into(), password: "password1".into() };
    let acct = create_check(&ok).ok().unwrap();
    assert_eq!((acct.username.as_str(), acct.email.as_str()), ("carol", "c@example.com"));
    assert_eq!(delete_check(4, 4, 3), Some("You can't delete your own account."));
    assert_eq!(delete_check(5, 4, 1), Some("Can't delete the last account."));
    assert_eq!(delete_check(5, 4, 2), None);
}

#[test]
fn club_form_rules() {
    assert!(valid_timezone("Australia/Sydney"));
    assert!(!valid_timezone("Mars/Olympus"));
    assert!(timezone_check("Mars/Olympus").unwrap().starts_with("Unknown timezone"));
    let f = |p: &str| UpdateForm {
        name: "n".into(),
        base_url: "b".into(),
        username: "u".into(),
        password: p.into(),
        member_id: "m".into(),
        timezone: "UTC".into(),
    };
    assert_eq!(new_password(&f("")), None);
    assert_eq!(new_password(&f("secret")), Some("secret"));
}

#[test]
fn events_page_rules() {
    assert_eq!(schedule_error_message("past"), "That time is in the past.");
    assert_eq!(schedule_error_message("zzz"), "Couldn't schedule that booking.");
    assert_eq!(book_refusal(None), None);
}

#[test]
fn config_parsing() {
    assert_eq!(parse_u16("8080"), Some(8080));
    assert_eq!(parse_u16("+7"), Some(7));
    assert_eq!(parse_u16("65536"), None);
    assert_eq!(parse_u16("655350"), None);
    assert_eq!(parse_u16("-1"), None);
    assert_eq!(parse_u16("+"), None);
    assert_eq!(parse_u16(""), None);
    assert_eq!(parse_u16("12a"), None);
    let c = Config::from_values(None, Some("x".into()), Some("false".into()), Some("False".into()), None, None);
    assert_eq!(c.database_url, "sqlite:golf.db");
    assert_eq!(c.port, 3000);
    assert!(!c.dry_run);
    assert!(c.cookie_secure);
    assert_eq!(c.base_url, "http://localhost:3000");
    let c = Config::from_values(None, Some("8000".into()), None, Some("0".into()), Some("https://g.ts.net//".into()), None);
    assert!(c.dry_run && !c.cookie_secure);
    assert_eq!(c.base_url, "https://g.ts.net");
    assert!(SmtpConfig::from_values(Some("u".into()), None, Some("f".into()), None, None).is_none());
    let s = SmtpConfig::from_values(Some("u".into()), Some("p".into()), Some("f".into()), None, Some("587".into())).unwrap();
    assert_eq!((s.host.as_str(), s.port), ("smtp.fastmail.com", 587));
}

#[test]
fn debug_redacts_smtp_credentials() {
    let cfg = SmtpConfig {
        host: "smtp.example.com".to_string(),
        port: 465,
        username: "secret-login".to_string(),
        password: "hunter2-secret".to_string(),
        from: "me@example.com".to_string(),
    };
    let dbg = cfg.debug_string();
    assert!(!dbg.contains("hunter2-secret"), "password leaked: {dbg}");
    assert!(!dbg.contains("secret-login"), "username leaked: {dbg}");
    assert!(dbg.contains("me@example.com"), "from should be shown: {dbg}");
}

#[test]
fn ambiguous_time_picks_earlier_instant() {
    let early = UtcInstant { secs: 100, nanos: 5 };
    let late = UtcInstant { secs: 100, nanos: 6 };
    assert_eq!(choose_instant(LocalResolution::Ambiguous(late, early)), Some(early));
    assert_eq!(choose_instant(LocalResolution::Ambiguous(early, late)), Some(early));
    assert_eq!(choose_instant(LocalResolution::Single(late)), Some(late));
    assert_eq!(choose_instant(LocalResolution::Gap), None);
}

#[test]
fn error_page_escapes_markup() {
    assert_eq!(
        error_page("a > b && a < c"),
        "<p>a &gt; b &amp;&amp; a &lt; c</p>"
    );
    assert_eq!(error_page("plain"), "<p>plain</p>");
    let page = error_page("<script>alert('x')</script>");
    assert!(!page[3..page.len() - 4].contains('<'));
    assert!(!page[3..page.len() - 4].contains('>'));
}

#[test]
fn club_zone_falls_back_to_utc() {
    assert_eq!(club_zone("Australia/Sydney").name(), "Australia/Sydney");
    assert_eq!(club_zone("Mars/Olympus").name(), "UTC");
    assert_eq!(club_zone("australia/sydney").name(), "UTC");
    let fallback = local_to_utc("2026-06-20T10:00", &club_zone("Mars/Olympus")).unwrap();
    assert_eq!(fallback, rfc("2026-06-20T10:00:00+00:00"));
}

#[test]
fn book_now_refuses_simulates_or_books() {
    match book_now_action(Some("That slot is already full.".into()), true, 7) {
        BookNow::Refuse(t) => assert_eq!(t, "That slot is already full."),
        _ => panic!("a refusal wins, even in a dry run"),
    }
    match book_now_action(None, true, 7) {
        BookNow::Simulate(t) => assert_eq!(
            t,
            "Dry run — would book group 7 now (set DRY_RUN=false to book for real)."
        ),
        _ => panic!("a dry run only simulates"),
    }
    assert!(matches!(book_now_action(None, false, 7), BookNow::Book));
}
