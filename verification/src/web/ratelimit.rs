//! A small in-memory limiter for login attempts, keyed by username.
//!
//! Throttling repeated failures per username blunts password guessing. The
//! state is process-local: one limiter serves the single app instance, and
//! callers serialise access to it.
//!
//! The limiter keeps the time of each recent failure, so a username's count
//! is over a sliding window: the failures of the last `window` before the
//! moment asked about. Times are monotonic clock readings in nanoseconds
//! since the limiter's own epoch (its creation).
use vstd::prelude::*;

verus! {

/// Failed attempts allowed within [`WINDOW_NANOS`] before a username is
/// throttled.
pub const MAX_FAILURES: u32 = 5;

/// Sliding window for counting failures (and the cool-down once tripped):
/// five minutes.
pub const WINDOW_NANOS: u64 = 300_000_000_000;

/// Time elapsed from `start` to `now`; zero when `now` is earlier (a
/// saturating `Instant::duration_since`).
pub open spec fn elapsed(now: u64, start: u64) -> nat {
    if now >= start {
        (now - start) as nat
    } else {
        0
    }
}

/// A failure at `at` still lies within the window ending at `now`.
pub open spec fn is_fresh(at: u64, now: u64, window: u64) -> bool {
    elapsed(now, at) < window
}

/// Failures of `key` among the records `r` (username, time) that lie within
/// the window ending at `now`.
pub open spec fn fresh_failures(r: Seq<(Seq<char>, u64)>, key: Seq<char>, now: u64, window: u64) -> nat
    decreases r.len(),
{
    if r.len() == 0 {
        0
    } else {
        fresh_failures(r.drop_last(), key, now, window) + if r.last().0 == key && is_fresh(
            r.last().1,
            now,
            window,
        ) {
            1nat
        } else {
            0nat
        }
    }
}

/// Whether a login for `key` may be attempted at `now`: no failure of `key`
/// in the window ending at `now`, or fewer than `max` of them.
pub open spec fn permits(
    r: Seq<(Seq<char>, u64)>,
    key: Seq<char>,
    now: u64,
    window: u64,
    max: u32,
) -> bool {
    fresh_failures(r, key, now, window) == 0 || fresh_failures(r, key, now, window) < max
}

/// The records, in order, that lie within the window ending at `now`.
pub open spec fn fresh_records(r: Seq<(Seq<char>, u64)>, now: u64, window: u64) -> Seq<(Seq<char>, u64)>
    decreases r.len(),
{
    if r.len() == 0 {
        r
    } else {
        let kept = fresh_records(r.drop_last(), now, window);
        if is_fresh(r.last().1, now, window) {
            kept.push(r.last())
        } else {
            kept
        }
    }
}

/// The records, in order, of every username but `key`.
pub open spec fn without_key(r: Seq<(Seq<char>, u64)>, key: Seq<char>) -> Seq<(Seq<char>, u64)>
    decreases r.len(),
{
    if r.len() == 0 {
        r
    } else {
        let kept = without_key(r.drop_last(), key);
        if r.last().0 == key {
            kept
        } else {
            kept.push(r.last())
        }
    }
}

/// The records after a failure for `key` at `now`: records outside the
/// window ending at `now` are dropped, and the failure is added.
pub open spec fn after_failure(r: Seq<(Seq<char>, u64)>, key: Seq<char>, now: u64, window: u64) -> Seq<
    (Seq<char>, u64),
> {
    fresh_records(r, now, window).push((key, now))
}

/// `key` has a record.
pub open spec fn has_key(r: Seq<(Seq<char>, u64)>, key: Seq<char>) -> bool {
    exists|i: int| 0 <= i < r.len() && #[trigger] r[i].0 == key
}

/// The records after failures for `key` at each of `times`, in order.
pub open spec fn fail_at_each(r: Seq<(Seq<char>, u64)>, key: Seq<char>, times: Seq<u64>, window: u64) -> Seq<
    (Seq<char>, u64),
>
    decreases times.len(),
{
    if times.len() == 0 {
        r
    } else {
        after_failure(fail_at_each(r, key, times.drop_last(), window), key, times.last(), window)
    }
}

proof fn lemma_count_push(r: Seq<(Seq<char>, u64)>, x: (Seq<char>, u64), key: Seq<char>, now: u64, window: u64)
    ensures
        fresh_failures(r.push(x), key, now, window) == fresh_failures(r, key, now, window) + if x.0
            == key && is_fresh(x.1, now, window) {
            1nat
        } else {
            0nat
        },
{
    assert(r.push(x).drop_last() =~= r);
}

/// Dropping the records outside an earlier window leaves every later count
/// as it was: a failure outside the window at `now` is outside it later too.
proof fn lemma_count_fresh_records(r: Seq<(Seq<char>, u64)>, key: Seq<char>, now: u64, later: u64, window: u64)
    requires
        now <= later,
    ensures
        fresh_failures(fresh_records(r, now, window), key, later, window) == fresh_failures(
            r,
            key,
            later,
            window,
        ),
    decreases r.len(),
{
    if r.len() > 0 {
        let p = r.drop_last();
        lemma_count_fresh_records(p, key, now, later, window);
        if is_fresh(r.last().1, now, window) {
            lemma_count_push(fresh_records(p, now, window), r.last(), key, later, window);
        }
    }
}

/// Every record kept for the window ending at `now` lies within it.
proof fn lemma_fresh_records_fresh(r: Seq<(Seq<char>, u64)>, now: u64, window: u64)
    ensures
        forall|i: int|
            0 <= i < fresh_records(r, now, window).len() ==> is_fresh(
                #[trigger] fresh_records(r, now, window)[i].1,
                now,
                window,
            ),
    decreases r.len(),
{
    if r.len() > 0 {
        let p = r.drop_last();
        lemma_fresh_records_fresh(p, now, window);
        let kept = fresh_records(p, now, window);
        assert forall|i: int|
            0 <= i < fresh_records(r, now, window).len() implies is_fresh(
                #[trigger] fresh_records(r, now, window)[i].1,
                now,
                window,
            ) by {
            if i < kept.len() {
                assert(fresh_records(r, now, window)[i] == kept[i]);
            }
        }
    }
}

/// No failure of `key` at or before `now` lies within a window ending a full
/// window after `now`.
proof fn lemma_count_lapsed(r: Seq<(Seq<char>, u64)>, key: Seq<char>, now: u64, later: u64, window: u64)
    requires
        forall|i: int| 0 <= i < r.len() && #[trigger] r[i].0 == key ==> r[i].1 <= now,
        later >= now + window,
    ensures
        fresh_failures(r, key, later, window) == 0,
    decreases r.len(),
{
    if r.len() > 0 {
        let p = r.drop_last();
        assert forall|i: int| 0 <= i < p.len() && #[trigger] p[i].0 == key implies p[i].1 <= now by {
            assert(p[i] == r[i]);
        }
        lemma_count_lapsed(p, key, now, later, window);
        if r.last().0 == key {
            assert(r[r.len() - 1].0 == key);
        }
    }
}

proof fn lemma_count_without_key(r: Seq<(Seq<char>, u64)>, key: Seq<char>, now: u64, window: u64)
    ensures
        fresh_failures(without_key(r, key), key, now, window) == 0,
    decreases r.len(),
{
    if r.len() > 0 {
        let p = r.drop_last();
        lemma_count_without_key(p, key, now, window);
        if r.last().0 != key {
            lemma_count_push(without_key(p, key), r.last(), key, now, window);
        }
    }
}

/// Throttling: right after a failure for `key`, another attempt for `key` is
/// allowed exactly when the failures in the window now stay below the limit.
pub proof fn law_failure_throttles(
    r: Seq<(Seq<char>, u64)>,
    key: Seq<char>,
    now: u64,
    window: u64,
    max: u32,
)
    requires
        window > 0,
    ensures
        fresh_failures(after_failure(r, key, now, window), key, now, window) == fresh_failures(
            r,
            key,
            now,
            window,
        ) + 1,
        permits(after_failure(r, key, now, window), key, now, window, max) <==> fresh_failures(
            r,
            key,
            now,
            window,
        ) + 1 < max,
{
    lemma_count_fresh_records(r, key, now, now, window);
    lemma_count_push(fresh_records(r, now, window), (key, now), key, now, window);
}

/// The count over several failures: when a username with no record fails at
/// each of `times`, all within the window ending at `now`, it has exactly
/// that many failures counted at `now`, and is refused once they reach the
/// limit, not before.
pub proof fn law_failures_add_up(
    r: Seq<(Seq<char>, u64)>,
    key: Seq<char>,
    times: Seq<u64>,
    now: u64,
    window: u64,
    max: u32,
)
    requires
        !has_key(r, key),
        forall|i: int| 0 <= i < times.len() ==> #[trigger] times[i] <= now && is_fresh(times[i], now, window),
    ensures
        fresh_failures(fail_at_each(r, key, times, window), key, now, window) == times.len(),
        times.len() > 0 ==> (permits(fail_at_each(r, key, times, window), key, now, window, max)
            <==> times.len() < max),
    decreases times.len(),
{
    if times.len() == 0 {
        lemma_no_key_count(r, key, now, window);
    } else {
        let p = times.drop_last();
        let t = times.last();
        assert(times[times.len() - 1] == t);
        assert forall|i: int| 0 <= i < p.len() implies #[trigger] p[i] <= now && is_fresh(p[i], now, window) by {
            assert(p[i] == times[i]);
        }
        law_failures_add_up(r, key, p, now, window, max);
        let before = fail_at_each(r, key, p, window);
        lemma_count_fresh_records(before, key, t, now, window);
        lemma_count_push(fresh_records(before, t, window), (key, t), key, now, window);
    }
}

proof fn lemma_no_key_count(r: Seq<(Seq<char>, u64)>, key: Seq<char>, now: u64, window: u64)
    requires
        !has_key(r, key),
    ensures
        fresh_failures(r, key, now, window) == 0,
    decreases r.len(),
{
    if r.len() > 0 {
        let p = r.drop_last();
        assert(!has_key(p, key)) by {
            if has_key(p, key) {
                let i = choose|i: int| 0 <= i < p.len() && #[trigger] p[i].0 == key;
                assert(r[i] == p[i]);
            }
        }
        lemma_no_key_count(p, key, now, window);
        assert(r[r.len() - 1].0 != key);
    }
}

/// Isolation: a failure recorded for one username never changes whether a
/// different username may log in, at that moment or any later one.
pub proof fn law_other_keys_unaffected(
    r: Seq<(Seq<char>, u64)>,
    key: Seq<char>,
    other: Seq<char>,
    now: u64,
    later: u64,
    window: u64,
    max: u32,
)
    requires
        other != key,
        now <= later,
    ensures
        permits(after_failure(r, key, now, window), other, later, window, max) == permits(
            r,
            other,
            later,
            window,
            max,
        ),
{
    lemma_count_fresh_records(r, other, now, later, window);
    lemma_count_push(fresh_records(r, now, window), (key, now), other, later, window);
}

/// Expiry: once a full window has passed since its last failure, the
/// username may log in again, however many failures it had (given a clock
/// that never reads earlier than a recorded failure).
pub proof fn law_window_expires(
    r: Seq<(Seq<char>, u64)>,
    key: Seq<char>,
    now: u64,
    later: u64,
    window: u64,
    max: u32,
)
    requires
        forall|i: int| 0 <= i < r.len() && #[trigger] r[i].0 == key ==> r[i].1 <= now,
        later >= now + window,
    ensures
        permits(after_failure(r, key, now, window), key, later, window, max),
{
    lemma_count_lapsed(r, key, now, later, window);
    lemma_count_fresh_records(r, key, now, later, window);
    lemma_count_push(fresh_records(r, now, window), (key, now), key, later, window);
}

/// Reset: after a successful login the username has no record left, so its
/// next attempt is allowed.
pub proof fn law_success_clears(r: Seq<(Seq<char>, u64)>, key: Seq<char>, now: u64, window: u64, max: u32)
    ensures
        fresh_failures(without_key(r, key), key, now, window) == 0,
        permits(without_key(r, key), key, now, window, max),
{
    lemma_count_without_key(r, key, now, window);
}

/// A successful login clears only its own username: every other username
/// keeps exactly the failures it had counted, at any moment, and no record
/// of the cleared username is left.
pub proof fn law_success_keeps_others(
    r: Seq<(Seq<char>, u64)>,
    key: Seq<char>,
    other: Seq<char>,
    now: u64,
    window: u64,
)
    requires
        other != key,
    ensures
        fresh_failures(without_key(r, key), other, now, window) == fresh_failures(r, other, now, window),
        !has_key(without_key(r, key), key),
    decreases r.len(),
{
    if r.len() > 0 {
        let p = r.drop_last();
        law_success_keeps_others(p, key, other, now, window);
        let kept = without_key(p, key);
        if r.last().0 != key {
            lemma_count_push(kept, r.last(), other, now, window);
            assert forall|i: int| 0 <= i < kept.push(r.last()).len() implies #[trigger] kept.push(
                r.last(),
            )[i].0 != key by {
                if i < kept.len() {
                    assert(kept.push(r.last())[i] == kept[i]);
                    if kept[i].0 == key {
                        assert(has_key(kept, key));
                    }
                }
            }
        } else {
            assert(r.last().0 == key);
            assert(r.last().0 != other);
        }
    }
}

/// Bounded memory: after a failure at `now`, every record left lies within
/// the window, so lapsed failures never accumulate.
pub proof fn law_only_fresh_records_kept(
    r: Seq<(Seq<char>, u64)>,
    key: Seq<char>,
    now: u64,
    window: u64,
)
    requires
        window > 0,
    ensures
        forall|i: int|
            0 <= i < after_failure(r, key, now, window).len() ==> is_fresh(
                #[trigger] after_failure(r, key, now, window)[i].1,
                now,
                window,
            ),
{
    lemma_fresh_records_fresh(r, now, window);
    let f = fresh_records(r, now, window);
    assert forall|i: int| 0 <= i < after_failure(r, key, now, window).len() implies is_fresh(
        #[trigger] after_failure(r, key, now, window)[i].1,
        now,
        window,
    ) by {
        if i < f.len() {
            assert(after_failure(r, key, now, window)[i] == f[i]);
        }
    }
}

pub struct LoginLimiter {
    records: Vec<(String, u64)>,
    max_failures: u32,
    window: u64,
    epoch: std::time::Instant,
}

#[verifier::external_type_specification]
#[verifier::external_body]
pub struct ExInstant(std::time::Instant);

/// Trusted: `Instant::now`. Nothing is claimed of the reading.
#[verifier::external_body]
fn instant_now() -> std::time::Instant {
    std::time::Instant::now()
}

/// Trusted: `Instant::elapsed`, as whole seconds and the sub-second
/// nanoseconds (documented to be below one billion).
#[verifier::external_body]
fn elapsed_since(start: &std::time::Instant) -> (r: (u64, u32))
    ensures
        r.1 < 1_000_000_000,
{
    let d = start.elapsed();
    (d.as_secs(), d.subsec_nanos())
}

/// The records as (username, time) pairs.
pub open spec fn records_view(v: Seq<(String, u64)>) -> Seq<(Seq<char>, u64)> {
    v.map_values(|p: (String, u64)| (p.0@, p.1))
}

proof fn lemma_records_take(v: Seq<(String, u64)>, i: int)
    requires
        0 <= i < v.len(),
    ensures
        records_view(v.take(i + 1)) =~= records_view(v.take(i)).push((v[i].0@, v[i].1)),
        records_view(v.take(i + 1)).drop_last() =~= records_view(v.take(i)),
        records_view(v.take(i + 1)).last() == (v[i].0@, v[i].1),
{
}

fn is_fresh_exec(at: u64, now: u64, window: u64) -> (r: bool)
    ensures
        r == is_fresh(at, now, window),
{
    let el: u64 = if now >= at {
        now - at
    } else {
        0
    };
    el < window
}

impl View for LoginLimiter {
    type V = Seq<(Seq<char>, u64)>;

    closed spec fn view(&self) -> Seq<(Seq<char>, u64)> {
        records_view(self.records@)
    }
}

impl LoginLimiter {
    /// Failures allowed per window.
    pub closed spec fn limit(self) -> u32 {
        self.max_failures
    }

    /// Window length in nanoseconds.
    pub closed spec fn window_len(self) -> u64 {
        self.window
    }

    /// An empty limiter allowing `max_failures` failures per `window`
    /// nanoseconds.
    pub fn new(max_failures: u32, window: u64) -> (r: Self)
        ensures
            r@ == Seq::<(Seq<char>, u64)>::empty(),
            r.limit() == max_failures,
            r.window_len() == window,
    {
        let r = LoginLimiter { records: Vec::new(), max_failures, window, epoch: instant_now() };
        assert(r@ =~= Seq::<(Seq<char>, u64)>::empty());
        r
    }

    /// Number of failures on record.
    pub fn len(&self) -> (r: usize)
        ensures
            r == self@.len(),
    {
        self.records.len()
    }

    /// Whether `key` has a failure on record.
    pub fn contains_key(&self, key: &str) -> (r: bool)
        ensures
            r == has_key(self@, key@),
    {
        let k = key.to_owned();
        let n = self.records.len();
        let mut i: usize = 0;
        while i < n
            invariant
                n == self.records@.len(),
                k@ == key@,
                i <= n,
                forall|j: int| 0 <= j < i ==> #[trigger] self@[j].0 != key@,
            decreases n - i,
        {
            if self.records[i].0 == k {
                assert(self@[i as int].0 == key@);
                return true;
            }
            i = i + 1;
        }
        false
    }

    /// Failures of `key` within the window ending at `now`.
    pub fn fresh_failures_at(&self, key: &str, now: u64) -> (r: usize)
        ensures
            r == fresh_failures(self@, key@, now, self.window_len()),
    {
        let k = key.to_owned();
        let n = self.records.len();
        let mut count: usize = 0;
        let mut i: usize = 0;
        while i < n
            invariant
                n == self.records@.len(),
                k@ == key@,
                i <= n,
                count <= i,
                count == fresh_failures(records_view(self.records@.take(i as int)), key@, now, self.window),
            decreases n - i,
        {
            proof {
                lemma_records_take(self.records@, i as int);
            }
            if self.records[i].0 == k && is_fresh_exec(self.records[i].1, now, self.window) {
                count = count + 1;
            }
            i = i + 1;
        }
        assert(self.records@.take(n as int) =~= self.records@);
        count
    }

    /// Whether a login attempt for `key` is allowed at `now`.
    pub fn allowed_at(&self, key: &str, now: u64) -> (r: bool)
        ensures
            r == permits(self@, key@, now, self.window_len(), self.limit()),
    {
        let count = self.fresh_failures_at(key, now);
        count == 0 || count < self.max_failures as usize
    }

    /// Record a failed attempt for `key` at `now`. Failures outside the
    /// window ending at `now` are dropped first, so the table cannot grow
    /// without bound with one-off usernames.
    pub fn record_failure_at(&mut self, key: &str, now: u64)
        ensures
            final(self)@ == after_failure(old(self)@, key@, now, old(self).window_len()),
            final(self).limit() == old(self).limit(),
            final(self).window_len() == old(self).window_len(),
    {
        let window = self.window;
        let n = self.records.len();
        let mut kept: Vec<(String, u64)> = Vec::new();
        let mut i: usize = 0;
        while i < n
            invariant
                n == self.records@.len(),
                window == self.window,
                i <= n,
                records_view(kept@) == fresh_records(
                    records_view(self.records@.take(i as int)),
                    now,
                    window,
                ),
            decreases n - i,
        {
            proof {
                lemma_records_take(self.records@, i as int);
            }
            let at = self.records[i].1;
            if is_fresh_exec(at, now, window) {
                let name = self.records[i].0.clone();
                let ghost prev = kept@;
                kept.push((name, at));
                assert(records_view(kept@) =~= records_view(prev).push((self.records@[i as int].0@, at)));
            }
            i = i + 1;
        }
        assert(self.records@.take(n as int) =~= self.records@);
        let ghost before = kept@;
        kept.push((key.to_owned(), now));
        assert(records_view(kept@) =~= records_view(before).push((key@, now)));
        self.records = kept;
    }

    /// Clear `key`'s failures after a successful login.
    pub fn record_success(&mut self, key: &str)
        ensures
            final(self)@ == without_key(old(self)@, key@),
            final(self).limit() == old(self).limit(),
            final(self).window_len() == old(self).window_len(),
    {
        let k = key.to_owned();
        let n = self.records.len();
        let mut kept: Vec<(String, u64)> = Vec::new();
        let mut i: usize = 0;
        while i < n
            invariant
                n == self.records@.len(),
                k@ == key@,
                i <= n,
                records_view(kept@) == without_key(records_view(self.records@.take(i as int)), key@),
            decreases n - i,
        {
            proof {
                lemma_records_take(self.records@, i as int);
            }
            if !(self.records[i].0 == k) {
                let name = self.records[i].0.clone();
                let at = self.records[i].1;
                let ghost prev = kept@;
                kept.push((name, at));
                assert(records_view(kept@) =~= records_view(prev).push((self.records@[i as int].0@, at)));
            }
            i = i + 1;
        }
        assert(self.records@.take(n as int) =~= self.records@);
        self.records = kept;
    }

    /// Nanoseconds since this limiter's epoch, saturating.
    fn now(&self) -> u64 {
        let (secs, nanos) = elapsed_since(&self.epoch);
        if secs >= 18_446_744_073 {
            u64::MAX
        } else {
            secs * 1_000_000_000 + nanos as u64
        }
    }

    /// Whether a login attempt for `key` is currently allowed.
    pub fn allowed(&self, key: &str) -> (r: bool)
        ensures
            exists|now: u64| r == permits(self@, key@, now, self.window_len(), self.limit()),
    {
        let now = self.now();
        self.allowed_at(key, now)
    }

    /// Record a failed attempt for `key` now.
    pub fn record_failure(&mut self, key: &str)
        ensures
            exists|now: u64|
                final(self)@ == after_failure(old(self)@, key@, now, old(self).window_len()),
            final(self).limit() == old(self).limit(),
            final(self).window_len() == old(self).window_len(),
    {
        let now = self.now();
        self.record_failure_at(key, now);
    }
}

/// The limiter guarding the login endpoint: [`MAX_FAILURES`] failures per
/// [`WINDOW_NANOS`].
pub fn login_limiter() -> (r: LoginLimiter)
    ensures
        r@ == Seq::<(Seq<char>, u64)>::empty(),
        r.limit() == MAX_FAILURES,
        r.window_len() == WINDOW_NANOS,
{
    LoginLimiter::new(MAX_FAILURES, WINDOW_NANOS)
}

} // verus!
