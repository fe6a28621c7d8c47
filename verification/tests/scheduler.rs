use golf_booker::scheduler::{next_fire_action, pre_auth_action, FireAction, PreAuth};
use golf_booker::golf::client::BookingError;
use golf_booker::scheduler::{
    arm_horizon, check_club, check_job, delay_until, fire_step, job_outcome, notification,
    retry_deadline, should_requeue, staleness, BookingJobData, ClubLookup, FireError, FireStep,
    JobOutcome, JobStatus, PREAUTH_LEAD_SECS, STALE_GRACE_SECS,
};
use golf_booker::time::UtcInstant;

fn rfc(s: &str) -> UtcInstant {
    let dt = chrono::DateTime::parse_from_rfc3339(s).unwrap();
    UtcInstant {
        secs: dt.timestamp(),
        nanos: dt.timestamp_subsec_nanos(),
    }
}

fn at(secs: i64) -> UtcInstant {
    UtcInstant { secs, nanos: 0 }
}

#[test]
fn job_status_roundtrips() {
    for s in [
        JobStatus::Pending,
        JobStatus::Running,
        JobStatus::Completed,
        JobStatus::Failed,
        JobStatus::Cancelled,
    ] {
        assert_eq!(s.to_name_string().parse::<JobStatus>().unwrap(), s);
    }
    assert!("bogus".parse::<JobStatus>().is_err());
}

#[test]
fn job_status_parse_error_names_the_text() {
    assert_eq!(JobStatus::parse("bogus").unwrap_err(), "invalid job status: bogus");
    assert_eq!(JobStatus::Cancelled.as_str(), "cancelled");
    assert!(JobStatus::parse("Pending").is_err());
}

#[test]
fn delay_until_waits_for_future_preauth_point() {
    let now = rfc("2026-06-20T00:00:00+00:00");
    let target = UtcInstant { secs: now.secs + 100, nanos: now.nanos };
    let delay = delay_until(target, PREAUTH_LEAD_SECS, now).unwrap();
    assert_eq!(delay.secs, 70);
}

#[test]
fn delay_until_is_none_when_past() {
    let now = rfc("2026-06-20T00:00:00+00:00");
    let target = UtcInstant { secs: now.secs - 10, nanos: now.nanos };
    assert!(delay_until(target, 0, now).is_none());
    let soon = UtcInstant { secs: now.secs + 10, nanos: now.nanos };
    assert!(delay_until(soon, PREAUTH_LEAD_SECS, now).is_none());
}

#[test]
fn delay_until_exactly_now_is_zero_wait() {
    let d = delay_until(at(1000), 30, at(970)).unwrap();
    assert_eq!((d.secs, d.nanos), (0, 0));
    let d = delay_until(UtcInstant { secs: 1000, nanos: 500 }, 0, UtcInstant { secs: 998, nanos: 700 }).unwrap();
    assert_eq!((d.secs, d.nanos), (1, 999_999_800));
}

#[test]
fn requeues_retryable_until_attempts_exhausted() {
    assert!(should_requeue(false, 0, 3));
    assert!(should_requeue(false, 1, 3));
    assert!(!should_requeue(false, 2, 3));
    assert!(!should_requeue(true, 0, 3));
    assert!(!should_requeue(false, 0, 1));
}

#[test]
fn requeue_policy_handles_extreme_counts() {
    assert!(!should_requeue(false, i64::MAX, i64::MAX));
    assert!(should_requeue(false, i64::MIN, 0));
}

#[test]
fn fire_step_follows_the_retry_rules() {
    let deadline = at(105);
    match fire_step(1, Ok(()), at(100), deadline) {
        FireStep::Done(Ok(())) => {}
        _ => panic!("a booking ends the loop"),
    }
    match fire_step(1, Err(BookingError::Terminal("already booked".into())), at(100), deadline) {
        FireStep::Done(Err(FireError::Terminal(m))) => assert_eq!(m, "already booked"),
        _ => panic!("terminal error ends the loop as terminal"),
    }
    match fire_step(2, Err(BookingError::Retryable("not open".into())), at(100), deadline) {
        FireStep::Retry => {}
        _ => panic!("retryable error before the deadline retries"),
    }
    match fire_step(21, Err(BookingError::Retryable("not open".into())), at(105), deadline) {
        FireStep::Done(Err(FireError::Retryable(m))) => {
            assert_eq!(m, "not open (gave up after 21 attempt(s))")
        }
        _ => panic!("retryable error at the deadline gives up"),
    }
}

#[test]
fn retry_deadline_is_five_seconds_out() {
    let d = retry_deadline(UtcInstant { secs: 10, nanos: 7 });
    assert_eq!((d.secs, d.nanos), (15, 7));
    let h = arm_horizon(at(1000));
    assert_eq!(h.secs, 1120);
}

#[test]
fn stale_jobs_are_detected_with_their_lateness() {
    let target = at(1_000_000);
    assert!(staleness(target, at(1_000_000 + STALE_GRACE_SECS)).is_none());
    assert!(staleness(target, at(1_000_000)).is_none());
    let msg = staleness(target, at(1_000_000 + STALE_GRACE_SECS + 60)).unwrap();
    assert_eq!(
        msg,
        "missed scheduled time by 660s (the server was likely down when it should have fired)"
    );
}

#[test]
fn job_checks_report_the_first_problem() {
    let data = BookingJobData { event_id: 1, booking_group_id: 2 };
    assert_eq!(
        check_job(Err("bad".into()), Ok(data), Some(3)).unwrap_err(),
        "invalid scheduled_time: bad"
    );
    assert_eq!(
        check_job(Ok(at(5)), Err("oops".into()), Some(3)).unwrap_err(),
        "invalid job_data: oops"
    );
    assert_eq!(check_job(Ok(at(5)), Ok(data), None).unwrap_err(), "club was removed");
    let (t, d, c) = check_job(Ok(at(5)), Ok(data), Some(3)).unwrap();
    assert_eq!((t, d, c), (at(5), data, 3));
    assert_eq!(check_club(7, ClubLookup::Missing).unwrap_err(), "club 7 not found");
    assert_eq!(
        check_club(-7, ClubLookup::Failed("db down".into())).unwrap_err(),
        "failed to load club -7: db down"
    );
    assert_eq!(check_club(7, ClubLookup::Found("Ridge".into())).unwrap(), "Ridge");
}

#[test]
fn outcomes_complete_requeue_or_fail() {
    assert!(matches!(job_outcome(Ok(()), 0, 3), JobOutcome::Completed));
    match job_outcome(Err(FireError::Retryable("late".into())), 0, 3) {
        JobOutcome::Requeue(m) => assert_eq!(m, "late"),
        _ => panic!("should re-arm"),
    }
    match job_outcome(Err(FireError::Retryable("late".into())), 2, 3) {
        JobOutcome::Failed(m) => assert_eq!(m, "late"),
        _ => panic!("attempts spent"),
    }
    match job_outcome(Err(FireError::Terminal("nope".into())), 0, 3) {
        JobOutcome::Failed(m) => assert_eq!(m, "nope"),
        _ => panic!("terminal never re-arms"),
    }
}

#[test]
fn notification_texts() {
    let b = BookingJobData { event_id: 101, booking_group_id: 5001 };
    let ok = notification(false, "Ridge", b, "https://g.example", &Ok(()));
    assert_eq!(ok.subject, "✅ Booked at Ridge");
    assert_eq!(
        ok.body,
        "Your scheduled booking went through.\n\nClub: Ridge\nEvent: 101\nBooking group: 5001\n\nView your bookings: https://g.example/scheduled-jobs\n"
    );
    let dry = notification(true, "Ridge", b, "u", &Ok(()));
    assert_eq!(dry.subject, "[DRY RUN] Would have booked at Ridge");
    assert!(dry.body.starts_with("Dry run — no real booking was made."));
    let failed = notification(true, "Ridge", b, "u", &Err("boom".into()));
    assert_eq!(failed.subject, "[DRY RUN] ❌ Booking failed at Ridge");
    assert!(failed
        .body
        .starts_with("Your scheduled booking did not go through.\nReason: boom\n\nClub: Ridge"));
    let real_fail = notification(false, "Ridge", b, "u", &Err("x".into()));
    assert_eq!(real_fail.subject, "❌ Booking failed at Ridge");
}

fn stored_job(scheduled_time: &str) -> golf_booker::scheduler::ScheduledJob {
    golf_booker::scheduler::ScheduledJob {
        id: 1,
        user_id: 1,
        club_id: Some(1),
        event_id: Some(101),
        job_type: "booking".to_string(),
        scheduled_time: scheduled_time.to_string(),
        status: "pending".to_string(),
        job_data: r#"{"type":"booking","event_id":101,"booking_group_id":5002}"#.to_string(),
        attempts: 0,
        max_attempts: 3,
        last_error: None,
        created_at: String::new(),
        updated_at: String::new(),
        completed_at: None,
    }
}

#[test]
fn scheduled_time_reads_offset_times_as_utc() {
    let job = stored_job("2026-06-20T10:00:00+10:00");
    assert_eq!(job.scheduled_time().unwrap(), rfc("2026-06-20T00:00:00Z"));
    assert_eq!(job.scheduled_time().unwrap().nanos, 0);
    assert!(stored_job("tomorrow").scheduled_time().is_err());
}

#[test]
fn dry_run_skips_login_and_never_books() {
    assert_eq!(pre_auth_action(true), PreAuth::Skip);
    assert_eq!(pre_auth_action(false), PreAuth::Login);
    let now = at(100);
    let deadline = at(105);
    assert!(matches!(next_fire_action(true, 0, None, now, deadline), FireAction::Done(Ok(()))));
    let failed = Some(Err(BookingError::Retryable("Sheet not open yet".into())));
    assert!(matches!(next_fire_action(true, 1, failed, now, deadline), FireAction::Done(Ok(()))));
}

#[test]
fn real_run_books_then_retries_until_the_deadline() {
    let deadline = at(105);
    assert!(matches!(next_fire_action(false, 0, None, at(100), deadline), FireAction::Book));
    assert!(matches!(next_fire_action(false, 1, Some(Ok(())), at(100), deadline), FireAction::Done(Ok(()))));
    let early = Some(Err(BookingError::Retryable("Sheet not open yet".into())));
    assert!(matches!(next_fire_action(false, 1, early, at(100), deadline), FireAction::Retry));
    let late = Some(Err(BookingError::Retryable("Sheet not open yet".into())));
    match next_fire_action(false, 3, late, at(106), deadline) {
        FireAction::Done(Err(e)) => {
            assert!(!e.is_terminal());
            assert_eq!(e.message(), "Sheet not open yet (gave up after 3 attempt(s))");
        }
        _ => panic!("expected the race to end"),
    }
    let terminal = Some(Err(BookingError::Terminal("Already booked".into())));
    match next_fire_action(false, 1, terminal, at(100), deadline) {
        FireAction::Done(Err(e)) => assert!(e.is_terminal()),
        _ => panic!("expected a terminal end"),
    }
}

#[test]
fn pre_auth_failure_is_retryable() {
    let e = golf_booker::scheduler::pre_auth_failure("connection refused");
    assert!(!e.is_terminal());
    assert_eq!(e.message(), "pre-auth login failed: connection refused");
}
