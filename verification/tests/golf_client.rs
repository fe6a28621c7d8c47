use golf_booker::golf::client::{
    booking_error_message, classify_booking_error, interpret_booking_response,
    looks_like_login_page, truncate, BookingError, ClubEndpoint,
};

fn texts(items: &[&str]) -> Option<Vec<String>> {
    Some(items.iter().map(|s| s.to_string()).collect())
}

#[test]
fn detects_booking_error() {
    // The document `<Response><Error><ErrorText>Sheet not open yet</ErrorText></Error></Response>`
    // parses to one error text.
    assert_eq!(
        booking_error_message(&texts(&["Sheet not open yet"])).as_deref(),
        Some("Sheet not open yet")
    );
}

#[test]
fn joins_multiple_errors() {
    assert_eq!(
        booking_error_message(&texts(&["A", "B"])).as_deref(),
        Some("A, B")
    );
}

#[test]
fn no_error_elements_is_success() {
    // `<Response><ok/></Response>` parses with no error elements.
    assert!(booking_error_message(&texts(&[])).is_none());
    // A body that is not an error document at all.
    assert!(booking_error_message(&None).is_none());
}

#[test]
fn interprets_clean_response_as_booked() {
    assert!(interpret_booking_response("<Response><ok/></Response>", &texts(&[])).is_ok());
}

#[test]
fn interprets_error_document_as_failure() {
    let xml = "<Response><Error><ErrorText>Member not eligible</ErrorText></Error></Response>";
    let err = interpret_booking_response(xml, &texts(&["Member not eligible"])).unwrap_err();
    assert!(!err.is_retryable(), "eligibility error should be terminal");
}

#[test]
fn login_page_response_is_retryable_not_booked() {
    for body in [
        "<!DOCTYPE html><html><body>Please log in</body></html>",
        "<html><form action=\"/security/login.msp\"></form></html>",
    ] {
        let err = interpret_booking_response(body, &None)
            .expect_err("login page must not count as a booking");
        assert!(err.is_retryable(), "expected retryable for: {body}");
    }
}

#[test]
fn classifies_terminal_errors() {
    for msg in [
        "You have already booked this competition",
        "Member not eligible for this event",
        "Booking limit exceeded",
    ] {
        assert!(
            !classify_booking_error(msg).is_retryable(),
            "expected terminal: {msg}"
        );
    }
}

#[test]
fn classifies_retryable_and_unknown_errors() {
    for msg in ["Booking sheet is not open yet", "Some unexpected message"] {
        assert!(
            classify_booking_error(msg).is_retryable(),
            "expected retryable: {msg}"
        );
    }
}

#[test]
fn empty_response_is_retryable_not_booked() {
    for body in ["", "   ", "\n\t  \n"] {
        let err = interpret_booking_response(body, &None)
            .expect_err("empty body must not count as a booking");
        assert!(err.is_retryable(), "expected retryable for {body:?}");
    }
}

#[test]
fn detects_spring_security_login_redirect() {
    let body = "<html><form action=\"/j_security_check\" method=\"post\"></form></html>";
    let err = interpret_booking_response(body, &None).expect_err("login redirect is not a booking");
    assert!(err.is_retryable());
}

#[test]
fn truncate_is_char_safe_and_bounded() {
    assert_eq!(truncate("short", 600), "short");
    let long = "é".repeat(1000);
    let out = truncate(&long, 10);
    assert!(out.starts_with(&"é".repeat(10)));
    assert!(out.contains("bytes total"));
}

#[test]
fn ambiguous_words_alone_are_not_terminal() {
    for msg in [
        "Server at maximum capacity — please retry",
        "Gateway timeout exceeded",
        "Slot is no longer shown but may reopen shortly",
    ] {
        assert!(
            classify_booking_error(msg).is_retryable(),
            "expected retryable: {msg}"
        );
    }
}

#[test]
fn truncate_reports_total_byte_length() {
    let long = "é".repeat(1000);
    assert_eq!(truncate(&long, 2), "éé… (2000 bytes total)");
    assert_eq!(truncate("abcdef", 3), "abc… (6 bytes total)");
    assert_eq!(truncate("abc", 3), "abc");
}

#[test]
fn classification_is_case_insensitive_and_keeps_message() {
    match classify_booking_error("ALREADY BOOKED") {
        BookingError::Terminal(m) => assert_eq!(m, "ALREADY BOOKED"),
        other => panic!("expected terminal, got retryable {:?}", other.message()),
    }
    match classify_booking_error("Sheet not open yet") {
        BookingError::Retryable(m) => assert_eq!(m, "Sheet not open yet"),
        BookingError::Terminal(m) => panic!("unexpected terminal: {m}"),
    }
}

#[test]
fn every_terminal_marker_is_terminal() {
    for marker in [
        "already booked",
        "already have",
        "not eligible",
        "ineligible",
        "not allowed",
        "not permitted",
        "duplicate",
        "booking limit",
        "exceeded the maximum",
        "maximum number",
        "no longer available",
        "permission",
    ] {
        let msg = format!("Sorry: {marker}!");
        assert!(!classify_booking_error(&msg).is_retryable(), "{msg}");
    }
}

#[test]
fn error_document_wins_over_login_markers() {
    // An error document is classified by its text even when the body also
    // mentions HTML.
    let r = interpret_booking_response("<html>", &texts(&["Sheet not open yet"]));
    match r {
        Err(BookingError::Retryable(m)) => assert_eq!(m, "Sheet not open yet"),
        _ => panic!("expected the error document's retryable message"),
    }
}

#[test]
fn login_and_empty_messages() {
    match interpret_booking_response("<HTML>", &None) {
        Err(e) => assert_eq!(
            e.message(),
            "booking returned a login/HTML page — session likely expired"
        ),
        Ok(()) => panic!("login page booked"),
    }
    match interpret_booking_response(" \u{a0}\u{3000}", &None) {
        Err(e) => assert_eq!(e.message(), "booking returned an empty response"),
        Ok(()) => panic!("blank body booked"),
    }
    assert!(looks_like_login_page("<!DocType x>"));
    assert!(!looks_like_login_page("<Response/>"));
}

#[test]
fn endpoint_urls_and_forms() {
    let ep = ClubEndpoint::new("https://club.example.com//", "u", "p", "m42");
    assert_eq!(ep.base_url, "https://club.example.com");
    assert_eq!(ep.login_url(), "https://club.example.com/security/login.msp");
    assert_eq!(ep.event_url(101), "https://club.example.com/spring/bookings/events/101");
    assert_eq!(ep.booking_url(), "https://club.example.com/members/Ajax");
    let form = ep.booking_form(5001);
    let pairs: Vec<(&str, &str)> = form.iter().map(|(a, b)| (a.as_str(), b.as_str())).collect();
    assert_eq!(
        pairs,
        vec![
            ("doAction", "makeBooking"),
            ("rowId", "5001"),
            ("memberId", "m42"),
            ("myGroup", "true"),
            ("findAlternative", "false"),
        ]
    );
    let login = ep.login_form();
    assert_eq!(login[0], ("user".to_string(), "u".to_string()));
    assert_eq!(login[1], ("password".to_string(), "p".to_string()));
    let from = golf_booker::time::CivilDate { year: 2026, month: 6, day: 1 };
    let to = golf_booker::time::CivilDate { year: 2026, month: 7, day: 31 };
    assert_eq!(
        ep.events_between_url(from, to),
        "https://club.example.com/spring/bookings/events/between/01-06-2026/31-07-2026/3000000"
    );
}
