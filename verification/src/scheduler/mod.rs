//! Scheduled bookings: the decisions behind firing a booking the instant a
//! tee sheet opens.
//!
//! A job is armed shortly before its target, pre-authenticates, waits for the
//! exact moment, then books with rapid retries. The waiting, the club calls
//! and the database live outside the library; here are the rules that drive
//! them: job states, timing, retry and re-arm policy, and what the user is
//! told. Times are UTC instants.
use crate::golf::client::{BookingError, BookingErrorView};
use crate::text::{concat, decimal, i64_to_decimal, signed_decimal, u64_to_decimal};
use crate::time::{representable, UtcInstant};
use vstd::prelude::*;
use vstd::string::*;

verus! {

/// How often the dispatcher wakes to look for jobs to arm (seconds).
pub const POLL_INTERVAL_SECS: u64 = 10;

/// Arm any pending job firing within this look-ahead window (seconds).
pub const ARM_WINDOW_SECS: i64 = 120;

/// How long before the firing moment to log in (seconds).
pub const PREAUTH_LEAD_SECS: i64 = 30;

/// After firing, keep retrying until this long past the firing moment
/// (milliseconds).
pub const RETRY_WINDOW_MILLIS: i64 = 5000;

/// Delay between rapid-retry attempts (milliseconds).
pub const RETRY_INTERVAL_MILLIS: u64 = 250;

/// A job armed more than this long after its target was missed (seconds).
pub const STALE_GRACE_SECS: i64 = 600;

/// Lifecycle of a scheduled job.
#[derive(Clone, Copy, PartialEq, Eq, Structural, Debug)]
pub enum JobStatus {
    Pending,
    Running,
    Completed,
    Failed,
    Cancelled,
}

impl JobStatus {
    /// The stored (and displayed) name of the status.
    pub open spec fn name(self) -> Seq<char> {
        match self {
            JobStatus::Pending => "pending"@,
            JobStatus::Running => "running"@,
            JobStatus::Completed => "completed"@,
            JobStatus::Failed => "failed"@,
            JobStatus::Cancelled => "cancelled"@,
        }
    }

    /// The stored name, as `Display` renders it.
    pub fn as_str(&self) -> (r: &'static str)
        ensures
            r@ == self.name(),
    {
        match self {
            JobStatus::Pending => "pending",
            JobStatus::Running => "running",
            JobStatus::Completed => "completed",
            JobStatus::Failed => "failed",
            JobStatus::Cancelled => "cancelled",
        }
    }

    /// The stored name as an owned string (`to_string`).
    pub fn to_name_string(&self) -> (r: String)
        ensures
            r@ == self.name(),
    {
        self.as_str().to_owned()
    }

    /// Read a stored status name; anything else is rejected with
    /// `invalid job status: <text>`.
    pub fn parse(s: &str) -> (r: Result<JobStatus, String>)
        ensures
            match r {
                Ok(st) => st.name() == s@,
                Err(e) => e@ == "invalid job status: "@ + s@ && !is_status_name(s@),
            },
    {
        let t = s.to_owned();
        if t == "pending".to_owned() {
            Ok(JobStatus::Pending)
        } else if t == "running".to_owned() {
            Ok(JobStatus::Running)
        } else if t == "completed".to_owned() {
            Ok(JobStatus::Completed)
        } else if t == "failed".to_owned() {
            Ok(JobStatus::Failed)
        } else if t == "cancelled".to_owned() {
            Ok(JobStatus::Cancelled)
        } else {
            Err(concat("invalid job status: ", s))
        }
    }
}

/// The text names some status.
pub open spec fn is_status_name(s: Seq<char>) -> bool {
    exists|st: JobStatus| #[trigger] st.name() == s
}

impl std::str::FromStr for JobStatus {
    type Err = String;

    fn from_str(s: &str) -> (r: Result<Self, Self::Err>)
        ensures
            match r {
                Ok(st) => st.name() == s@,
                Err(e) => e@ == "invalid job status: "@ + s@ && !is_status_name(s@),
            },
    {
        JobStatus::parse(s)
    }
}

/// Round trip: every status reads back as itself from its stored name, and
/// distinct statuses have distinct names.
pub proof fn law_status_name_roundtrip(a: JobStatus, b: JobStatus)
    ensures
        is_status_name(a.name()),
        a.name() == b.name() ==> a == b,
{
    reveal_strlit("pending");
    reveal_strlit("running");
    reveal_strlit("completed");
    reveal_strlit("failed");
    reveal_strlit("cancelled");
    if a.name() == b.name() {
        assert(a.name().len() == b.name().len());
        if a != b {
            match a {
                JobStatus::Pending => assert(a.name()[0] != b.name()[0] || a.name()[1] != b.name()[1]),
                JobStatus::Running => assert(a.name()[0] != b.name()[0]),
                JobStatus::Completed => assert(a.name()[0] != b.name()[0] || a.name()[1] != b.name()[1]),
                JobStatus::Failed => assert(a.name()[0] != b.name()[0]),
                JobStatus::Cancelled => assert(a.name()[0] != b.name()[0] || a.name()[1] != b.name()[1]),
            }
        }
    }
}

/// What a booking job books.
#[derive(Clone, Copy, PartialEq, Eq, Structural, Debug)]
pub struct BookingJobData {
    pub event_id: i64,
    /// The booking group / `rowId` to book against.
    pub booking_group_id: u32,
}

/// The payload of a scheduled job, tagged by its `type`.
#[derive(Clone, Copy, PartialEq, Eq, Structural, Debug)]
pub enum JobData {
    Booking(BookingJobData),
}

/// A `scheduled_jobs` row.
pub struct ScheduledJob {
    pub id: i64,
    pub user_id: i64,
    pub club_id: Option<i64>,
    pub event_id: Option<i64>,
    pub job_type: String,
    pub scheduled_time: String,
    pub status: String,
    pub job_data: String,
    pub attempts: i64,
    pub max_attempts: i64,
    pub last_error: Option<String>,
    pub created_at: String,
    pub updated_at: String,
    pub completed_at: Option<String>,
}

impl ScheduledJob {
    /// The firing moment, read from the stored RFC 3339 text.
    pub fn scheduled_time(&self) -> (r: Result<UtcInstant, String>)
        ensures
            match r {
                Ok(t) => crate::time::rfc3339_instant(self.scheduled_time@) == Some(t),
                Err(_) => crate::time::rfc3339_instant(self.scheduled_time@) is None,
            },
    {
        crate::time::parse_rfc3339(self.scheduled_time.as_str())
    }
}

/// Why a firing attempt ended without a booking, and whether re-arming the
/// job could change that.
pub enum FireError {
    /// Permanent: re-arming won't help (already booked, ineligible).
    Terminal(String),
    /// Transient: worth re-arming on a later tick.
    Retryable(String),
}

pub enum FireErrorView {
    Terminal(Seq<char>),
    Retryable(Seq<char>),
}

impl View for FireError {
    type V = FireErrorView;

    open spec fn view(&self) -> FireErrorView {
        match self {
            FireError::Terminal(m) => FireErrorView::Terminal(m@),
            FireError::Retryable(m) => FireErrorView::Retryable(m@),
        }
    }
}

impl FireErrorView {
    pub open spec fn message(self) -> Seq<char> {
        match self {
            FireErrorView::Terminal(m) => m,
            FireErrorView::Retryable(m) => m,
        }
    }
}

impl FireError {
    pub fn message(&self) -> (m: &String)
        ensures
            m@ == self@.message(),
    {
        match self {
            FireError::Terminal(m) => m,
            FireError::Retryable(m) => m,
        }
    }

    pub fn is_terminal(&self) -> (r: bool)
        ensures
            r == (self@ is Terminal),
    {
        match self {
            FireError::Terminal(_) => true,
            FireError::Retryable(_) => false,
        }
    }
}

/// The re-arm policy: terminal failures never re-arm; retryable ones re-arm
/// while the attempt budget (counting this one) is not spent.
pub open spec fn requeue_policy(is_terminal: bool, attempts: int, max_attempts: int) -> bool {
    !is_terminal && attempts + 1 < max_attempts
}

/// Decide whether a failed firing should be re-armed for another attempt.
pub fn should_requeue(is_terminal: bool, attempts: i64, max_attempts: i64) -> (r: bool)
    ensures
        r == requeue_policy(is_terminal, attempts as int, max_attempts as int),
{
    !is_terminal && (attempts as i128) + 1 < (max_attempts as i128)
}

/// Terminal failures are final: a job whose firing ended terminally is
/// failed, never re-armed, whatever attempts it has left.
pub proof fn law_terminal_never_requeued(message: Seq<char>, attempts: int, max_attempts: int)
    ensures
        job_outcome_spec(Err(FireErrorView::Terminal(message)), attempts, max_attempts)
            == JobOutcomeView::Failed(message),
{
}

/// Re-arming is bounded by the attempt budget: a job is re-armed only while
/// its recorded attempts are at most `max_attempts - 2`, and each re-arm
/// records one more attempt, so a job starting at zero attempts is re-armed
/// at most `max_attempts - 1` times before it fails for good.
pub proof fn law_requeue_bounded(message: Seq<char>, attempts: int, max_attempts: int)
    ensures
        job_outcome_spec(Err(FireErrorView::Retryable(message)), attempts, max_attempts)
            is Requeue <==> attempts <= max_attempts - 2,
        attempts >= max_attempts - 1 ==> job_outcome_spec(
            Err(FireErrorView::Retryable(message)),
            attempts,
            max_attempts,
        ) == JobOutcomeView::Failed(message),
{
}

/// A wait, as whole seconds plus nanoseconds below one second.
#[derive(Clone, Copy, PartialEq, Eq, Structural, Debug)]
pub struct Delay {
    pub secs: u64,
    pub nanos: u32,
}

impl Delay {
    pub open spec fn total_nanos(self) -> int {
        self.secs * 1_000_000_000 + self.nanos
    }
}

/// Nanoseconds from `now` until `lead_secs` seconds before `target`.
pub open spec fn nanos_until(target: UtcInstant, lead_secs: int, now: UtcInstant) -> int {
    target.total_nanos() - lead_secs * 1_000_000_000 - now.total_nanos()
}

/// How long to wait from `now` until `lead_secs` before `target`, or `None`
/// if that moment has already passed (a zero wait when it is exactly now).
pub fn delay_until(target: UtcInstant, lead_secs: i64, now: UtcInstant) -> (r: Option<Delay>)
    requires
        representable(target.secs as int),
        representable(target.secs - lead_secs),
        representable(now.secs as int),
        target.nanos < 2_000_000_000,
        now.nanos < 2_000_000_000,
    ensures
        match r {
            None => nanos_until(target, lead_secs as int, now) < 0,
            Some(d) => d.nanos < 1_000_000_000 && d.total_nanos() == nanos_until(
                target,
                lead_secs as int,
                now,
            ),
        },
{
    let t = target.as_nanos();
    let n = now.as_nanos();
    let lead: i128 = (lead_secs as i128) * 1_000_000_000;
    let diff: i128 = t - lead - n;
    if diff < 0 {
        None
    } else {
        let secs = diff / 1_000_000_000;
        let nanos = diff % 1_000_000_000;
        Some(Delay { secs: secs as u64, nanos: nanos as u32 })
    }
}

/// The moment rapid retries stop: the retry window past `now`.
pub fn retry_deadline(now: UtcInstant) -> (r: UtcInstant)
    requires
        representable(now.secs as int),
        now.nanos < 2_000_000_000,
    ensures
        r.total_nanos() == now.total_nanos() + RETRY_WINDOW_MILLIS * 1_000_000,
        r.nanos < 2_000_000_000,
{
    UtcInstant { secs: now.secs + 5, nanos: now.nanos }
}

/// Jobs firing at or before this instant are armed now: the look-ahead
/// window past `now`.
pub fn arm_horizon(now: UtcInstant) -> (r: UtcInstant)
    requires
        representable(now.secs as int),
    ensures
        r.secs == now.secs + ARM_WINDOW_SECS,
        r.nanos == now.nanos,
{
    UtcInstant { secs: now.secs + ARM_WINDOW_SECS, nanos: now.nanos }
}

/// What the firing loop does after one booking attempt.
pub enum FireStep {
    /// Stop with this result.
    Done(Result<(), FireError>),
    /// Pause for the retry interval, then try again.
    Retry,
}

/// The view of a firing result.
pub open spec fn fire_result_view(r: Result<(), FireError>) -> Result<(), FireErrorView> {
    match r {
        Ok(()) => Ok(()),
        Err(e) => Err(e@),
    }
}

/// The rapid-retry rule: a booking ends the loop; a terminal club error ends
/// it as terminal; a retryable one is tried again until the deadline, then
/// ends as retryable (worth re-arming) with the attempt count noted.
pub open spec fn fire_step_spec(
    attempt: nat,
    outcome: Result<(), BookingErrorView>,
    now: UtcInstant,
    deadline: UtcInstant,
) -> Option<Result<(), FireErrorView>> {
    match outcome {
        Ok(()) => Some(Ok(())),
        Err(BookingErrorView::Terminal(m)) => Some(Err(FireErrorView::Terminal(m))),
        Err(BookingErrorView::Retryable(m)) => if now.total_nanos() >= deadline.total_nanos() {
            Some(
                Err(
                    FireErrorView::Retryable(
                        m + " (gave up after "@ + decimal(attempt) + " attempt(s))"@,
                    ),
                ),
            )
        } else {
            None
        },
    }
}

pub open spec fn fire_step_view(s: FireStep) -> Option<Result<(), FireErrorView>> {
    match s {
        FireStep::Done(r) => Some(fire_result_view(r)),
        FireStep::Retry => None,
    }
}

/// The race goes on only after a retryable error before the deadline: a
/// booking, a terminal error, or any error at or past the deadline ends it,
/// and a terminal error is never turned into a retryable one.
pub proof fn law_race_ends(
    attempt: nat,
    outcome: Result<(), BookingErrorView>,
    now: UtcInstant,
    deadline: UtcInstant,
)
    ensures
        fire_step_spec(attempt, outcome, now, deadline) is None <==> (outcome matches Err(
            BookingErrorView::Retryable(_),
        ) && now.total_nanos() < deadline.total_nanos()),
        outcome matches Err(BookingErrorView::Terminal(m)) ==> fire_step_spec(
            attempt,
            outcome,
            now,
            deadline,
        ) == Some(Err::<(), FireErrorView>(FireErrorView::Terminal(m))),
{
}

/// Decide what follows the `attempt`-th booking attempt.
pub fn fire_step(
    attempt: u32,
    outcome: Result<(), BookingError>,
    now: UtcInstant,
    deadline: UtcInstant,
) -> (r: FireStep)
    ensures
        fire_step_view(r) == fire_step_spec(
            attempt as nat,
            crate::golf::client::booking_result_view(outcome),
            now,
            deadline,
        ),
{
    match outcome {
        Ok(()) => FireStep::Done(Ok(())),
        Err(e) => {
            if !e.is_retryable() {
                let m = e.message().clone();
                return FireStep::Done(Err(FireError::Terminal(m)));
            }
            if now.as_nanos() >= deadline.as_nanos() {
                let mut m = e.message().clone();
                m.append(" (gave up after ");
                let n = u64_to_decimal(attempt as u64);
                m.append(n.as_str());
                m.append(" attempt(s))");
                FireStep::Done(Err(FireError::Retryable(m)))
            } else {
                FireStep::Retry
            }
        },
    }
}

/// What the firing task does at the pre-auth point.
#[derive(Clone, Copy, PartialEq, Eq, Structural, Debug)]
pub enum PreAuth {
    /// Log in to the club, for fresh cookies before the race.
    Login,
    /// A dry run: no request to the club.
    Skip,
}

pub open spec fn pre_auth_spec(dry_run: bool) -> PreAuth {
    if dry_run {
        PreAuth::Skip
    } else {
        PreAuth::Login
    }
}

/// Decide the pre-auth step: a dry run never logs in.
pub fn pre_auth_action(dry_run: bool) -> (a: PreAuth)
    ensures
        a == pre_auth_spec(dry_run),
{
    if dry_run {
        PreAuth::Skip
    } else {
        PreAuth::Login
    }
}

/// The failure of a pre-auth login: worth re-arming.
pub fn pre_auth_failure(detail: &str) -> (e: FireError)
    ensures
        e@ == FireErrorView::Retryable("pre-auth login failed: "@ + detail@),
{
    FireError::Retryable(concat("pre-auth login failed: ", detail))
}

/// What the firing task does next in the race.
pub enum FireAction {
    /// Send a booking request.
    Book,
    /// Wait the retry interval, then book again.
    Retry,
    /// The race is over, with this result.
    Done(Result<(), FireError>),
}

pub enum FireActionView {
    Book,
    Retry,
    Done(Result<(), FireErrorView>),
}

pub open spec fn fire_action_view(a: FireAction) -> FireActionView {
    match a {
        FireAction::Book => FireActionView::Book,
        FireAction::Retry => FireActionView::Retry,
        FireAction::Done(r) => FireActionView::Done(fire_result_view(r)),
    }
}

pub open spec fn outcome_opt_view(o: Option<Result<(), BookingError>>) -> Option<
    Result<(), BookingErrorView>,
> {
    match o {
        Some(r) => Some(crate::golf::client::booking_result_view(r)),
        None => None,
    }
}

/// The next step of the race. In a dry run it ends at once as a success,
/// with no booking request. Otherwise a booking request comes first (no
/// `outcome` yet, or after a retry wait), and after each one `fire_step_spec`
/// decides.
pub open spec fn fire_action_spec(
    dry_run: bool,
    attempt: nat,
    outcome: Option<Result<(), BookingErrorView>>,
    now: UtcInstant,
    deadline: UtcInstant,
) -> FireActionView {
    if dry_run {
        FireActionView::Done(Ok(()))
    } else {
        match outcome {
            None => FireActionView::Book,
            Some(o) => match fire_step_spec(attempt, o, now, deadline) {
                Some(r) => FireActionView::Done(r),
                None => FireActionView::Retry,
            },
        }
    }
}

/// Decide the next step of the race, given the outcome of the `attempt`-th
/// booking request when one was just made.
pub fn next_fire_action(
    dry_run: bool,
    attempt: u32,
    outcome: Option<Result<(), BookingError>>,
    now: UtcInstant,
    deadline: UtcInstant,
) -> (a: FireAction)
    ensures
        fire_action_view(a) == fire_action_spec(
            dry_run,
            attempt as nat,
            outcome_opt_view(outcome),
            now,
            deadline,
        ),
{
    if dry_run {
        return FireAction::Done(Ok(()));
    }
    match outcome {
        None => FireAction::Book,
        Some(o) => match fire_step(attempt, o, now, deadline) {
            FireStep::Done(r) => FireAction::Done(r),
            FireStep::Retry => FireAction::Retry,
        },
    }
}

/// A dry run never reaches the club: it skips the pre-auth login, and the
/// race ends in success before any booking request, whatever the inputs.
/// A real run's race starts with a booking request.
pub proof fn law_dry_run_never_books(
    attempt: nat,
    outcome: Option<Result<(), BookingErrorView>>,
    now: UtcInstant,
    deadline: UtcInstant,
)
    ensures
        pre_auth_spec(true) == PreAuth::Skip,
        fire_action_spec(true, attempt, outcome, now, deadline) == FireActionView::Done(Ok(())),
        pre_auth_spec(false) == PreAuth::Login,
        fire_action_spec(false, attempt, None, now, deadline) == FireActionView::Book,
{
}

/// A job's target is stale at `now` when more than the grace period has
/// passed since it.
pub open spec fn is_stale(target: UtcInstant, now: UtcInstant) -> bool {
    now.total_nanos() - target.total_nanos() > STALE_GRACE_SECS * 1_000_000_000
}

/// The failure recorded for a stale job: how late it is, in whole seconds.
pub open spec fn stale_message(target: UtcInstant, now: UtcInstant) -> Seq<char> {
    "missed scheduled time by "@ + decimal(
        ((now.total_nanos() - target.total_nanos()) / 1_000_000_000) as nat,
    ) + "s (the server was likely down when it should have fired)"@
}

/// A job still inside its rapid-retry window (at most the retry window past its
/// target, as a re-armed job is) is never taken for a missed one.
pub proof fn law_retries_never_stale(target: UtcInstant, now: UtcInstant)
    requires
        now.total_nanos() - target.total_nanos() <= RETRY_WINDOW_MILLIS * 1_000_000,
    ensures
        !is_stale(target, now),
{
}

/// A job armed long after its target was missed (the server was down when it
/// should have fired). `Some(message)` means it must be failed, not fired.
pub fn staleness(target: UtcInstant, now: UtcInstant) -> (r: Option<String>)
    requires
        representable(target.secs as int),
        representable(now.secs as int),
        target.nanos < 2_000_000_000,
        now.nanos < 2_000_000_000,
    ensures
        match r {
            Some(m) => is_stale(target, now) && m@ == stale_message(target, now),
            None => !is_stale(target, now),
        },
{
    let late: i128 = now.as_nanos() - target.as_nanos();
    if late > (STALE_GRACE_SECS as i128) * 1_000_000_000 {
        let secs = late / 1_000_000_000;
        let mut m = "missed scheduled time by ".to_owned();
        let n = u64_to_decimal(secs as u64);
        m.append(n.as_str());
        m.append("s (the server was likely down when it should have fired)");
        Some(m)
    } else {
        None
    }
}

/// Reading a claimed job before its club is looked up: its firing time, its
/// booking and its club must all be present.
pub open spec fn job_check_spec(
    target: Result<UtcInstant, Seq<char>>,
    data: Result<BookingJobData, Seq<char>>,
    club_id: Option<i64>,
) -> Result<(UtcInstant, BookingJobData, i64), Seq<char>> {
    match target {
        Err(e) => Err("invalid scheduled_time: "@ + e),
        Ok(t) => match data {
            Err(e) => Err("invalid job_data: "@ + e),
            Ok(d) => match club_id {
                None => Err("club was removed"@),
                Some(c) => Ok((t, d, c)),
            },
        },
    }
}

pub open spec fn str_result_view<T>(r: Result<T, String>) -> Result<T, Seq<char>> {
    match r {
        Ok(t) => Ok(t),
        Err(e) => Err(e@),
    }
}

/// Validate a claimed job's firing time (as read), booking (as read) and
/// club reference; an `Err` is the failure to record.
pub fn check_job(
    target: Result<UtcInstant, String>,
    data: Result<BookingJobData, String>,
    club_id: Option<i64>,
) -> (r: Result<(UtcInstant, BookingJobData, i64), String>)
    ensures
        str_result_view(r) == job_check_spec(str_result_view(target), str_result_view(data), club_id),
{
    match target {
        Err(e) => Err(concat("invalid scheduled_time: ", e.as_str())),
        Ok(t) => match data {
            Err(e) => Err(concat("invalid job_data: ", e.as_str())),
            Ok(d) => match club_id {
                None => Err("club was removed".to_owned()),
                Some(c) => Ok((t, d, c)),
            },
        },
    }
}

/// The outcome of looking a club up.
pub enum ClubLookup {
    /// The club exists; its name.
    Found(String),
    /// No such club.
    Missing,
    /// The lookup itself failed; the error text.
    Failed(String),
}

pub open spec fn club_check_spec(club_id: i64, lookup: ClubLookup) -> Result<Seq<char>, Seq<char>> {
    match lookup {
        ClubLookup::Found(name) => Ok(name@),
        ClubLookup::Missing => Err("club "@ + signed_decimal(club_id as int) + " not found"@),
        ClubLookup::Failed(e) => Err(
            "failed to load club "@ + signed_decimal(club_id as int) + ": "@ + e@,
        ),
    }
}

/// The club a job books at: its name, or the failure to record.
pub fn check_club(club_id: i64, lookup: ClubLookup) -> (r: Result<String, String>)
    ensures
        match r {
            Ok(n) => club_check_spec(club_id, lookup) == Ok::<Seq<char>, Seq<char>>(n@),
            Err(e) => club_check_spec(club_id, lookup) == Err::<Seq<char>, Seq<char>>(e@),
        },
{
    match lookup {
        ClubLookup::Found(name) => Ok(name),
        ClubLookup::Missing => {
            let mut m = "club ".to_owned();
            let id = i64_to_decimal(club_id);
            m.append(id.as_str());
            m.append(" not found");
            Err(m)
        },
        ClubLookup::Failed(e) => {
            let mut m = "failed to load club ".to_owned();
            let id = i64_to_decimal(club_id);
            m.append(id.as_str());
            m.append(": ");
            m.append(e.as_str());
            Err(m)
        },
    }
}

/// What becomes of a job once its firing ended.
pub enum JobOutcome {
    /// Booked: mark completed and notify.
    Completed,
    /// Re-arm later (back to pending, one more attempt counted); no email.
    Requeue(String),
    /// Mark failed with this message and notify.
    Failed(String),
}

pub enum JobOutcomeView {
    Completed,
    Requeue(Seq<char>),
    Failed(Seq<char>),
}

pub open spec fn job_outcome_view(o: JobOutcome) -> JobOutcomeView {
    match o {
        JobOutcome::Completed => JobOutcomeView::Completed,
        JobOutcome::Requeue(m) => JobOutcomeView::Requeue(m@),
        JobOutcome::Failed(m) => JobOutcomeView::Failed(m@),
    }
}

pub open spec fn job_outcome_spec(
    fired: Result<(), FireErrorView>,
    attempts: int,
    max_attempts: int,
) -> JobOutcomeView {
    match fired {
        Ok(()) => JobOutcomeView::Completed,
        Err(e) => if requeue_policy(e is Terminal, attempts, max_attempts) {
            JobOutcomeView::Requeue(e.message())
        } else {
            JobOutcomeView::Failed(e.message())
        },
    }
}

/// Settle a fired job: completed on a booking; on failure re-armed while the
/// policy allows, else failed.
pub fn job_outcome(fired: Result<(), FireError>, attempts: i64, max_attempts: i64) -> (r: JobOutcome)
    ensures
        job_outcome_view(r) == job_outcome_spec(
            fire_result_view(fired),
            attempts as int,
            max_attempts as int,
        ),
{
    match fired {
        Ok(()) => JobOutcome::Completed,
        Err(e) => {
            let msg = e.message().clone();
            if should_requeue(e.is_terminal(), attempts, max_attempts) {
                JobOutcome::Requeue(msg)
            } else {
                JobOutcome::Failed(msg)
            }
        },
    }
}

/// An email about a job's final outcome.
pub struct Notification {
    pub subject: String,
    pub body: String,
}

pub open spec fn notification_subject(dry_run: bool, club: Seq<char>, ok: bool) -> Seq<char> {
    let prefix = if dry_run {
        "[DRY RUN] "@
    } else {
        Seq::empty()
    };
    if ok {
        if dry_run {
            prefix + "Would have booked at "@ + club
        } else {
            "✅ Booked at "@ + club
        }
    } else {
        prefix + "❌ Booking failed at "@ + club
    }
}

pub open spec fn notification_detail(dry_run: bool, outcome: Result<(), Seq<char>>) -> Seq<char> {
    match outcome {
        Ok(()) => if dry_run {
            "Dry run — no real booking was made."@
        } else {
            "Your scheduled booking went through."@
        },
        Err(reason) => "Your scheduled booking did not go through.\nReason: "@ + reason,
    }
}

pub open spec fn notification_body(
    detail: Seq<char>,
    club: Seq<char>,
    booking: BookingJobData,
    base_url: Seq<char>,
) -> Seq<char> {
    detail + "\n\nClub: "@ + club + "\nEvent: "@ + signed_decimal(booking.event_id as int)
        + "\nBooking group: "@ + decimal(booking.booking_group_id as nat)
        + "\n\nView your bookings: "@ + base_url + "/scheduled-jobs\n"@
}

pub open spec fn outcome_view(o: Result<(), String>) -> Result<(), Seq<char>> {
    match o {
        Ok(()) => Ok(()),
        Err(e) => Err(e@),
    }
}

/// The email telling the scheduling user how their booking went.
pub fn notification(
    dry_run: bool,
    club_name: &str,
    booking: BookingJobData,
    base_url: &str,
    outcome: &Result<(), String>,
) -> (r: Notification)
    ensures
        r.subject@ == notification_subject(dry_run, club_name@, outcome is Ok),
        r.body@ == notification_body(
            notification_detail(dry_run, outcome_view(*outcome)),
            club_name@,
            booking,
            base_url@,
        ),
{
    let subject = match outcome {
        Ok(()) => {
            if dry_run {
                let mut s = "[DRY RUN] Would have booked at ".to_owned();
                s.append(club_name);
                proof {
                    reveal_strlit("[DRY RUN] Would have booked at ");
                    reveal_strlit("[DRY RUN] ");
                    reveal_strlit("Would have booked at ");
                    assert(s@ =~= notification_subject(dry_run, club_name@, true));
                }
                s
            } else {
                concat("✅ Booked at ", club_name)
            }
        },
        Err(_) => {
            if dry_run {
                let mut s = "[DRY RUN] ❌ Booking failed at ".to_owned();
                s.append(club_name);
                proof {
                    reveal_strlit("[DRY RUN] ❌ Booking failed at ");
                    reveal_strlit("[DRY RUN] ");
                    reveal_strlit("❌ Booking failed at ");
                    assert(s@ =~= notification_subject(dry_run, club_name@, false));
                }
                s
            } else {
                let s = concat("❌ Booking failed at ", club_name);
                assert(s@ =~= notification_subject(dry_run, club_name@, false));
                s
            }
        },
    };
    let mut body = match outcome {
        Ok(()) => {
            if dry_run {
                "Dry run — no real booking was made.".to_owned()
            } else {
                "Your scheduled booking went through.".to_owned()
            }
        },
        Err(reason) => concat("Your scheduled booking did not go through.\nReason: ", reason.as_str()),
    };
    body.append("\n\nClub: ");
    body.append(club_name);
    body.append("\nEvent: ");
    let ev = i64_to_decimal(booking.event_id);
    body.append(ev.as_str());
    body.append("\nBooking group: ");
    let grp = u64_to_decimal(booking.booking_group_id as u64);
    body.append(grp.as_str());
    body.append("\n\nView your bookings: ");
    body.append(base_url);
    body.append("/scheduled-jobs\n");
    Notification { subject, body }
}

} // verus!
