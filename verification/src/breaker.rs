//! The stall-detection circuit breaker: a persisted failure counter with a
//! cooldown timer that gates whether the loop may run another iteration.
//!
//! The breaker is `Closed` at first. Every no-progress record increments the
//! failure counter and opens the breaker once the counter reaches the
//! threshold, stamping the opening time. An open breaker denies iterations
//! until its cooldown has elapsed, then allows exactly one trial attempt in
//! `HalfOpen`; the next record snaps it back to `Closed` (progress) or
//! re-opens it (no progress). An open breaker whose stamp does not parse is
//! treated as corrupt and silently reset to `Closed`.

use vstd::prelude::*;
use vstd::string::*;

verus! {

/// Gating state of the breaker.
#[derive(Clone, Copy, PartialEq, Eq, Structural, Debug)]
pub enum CircuitState {
    Closed,
    Open,
    HalfOpen,
}

/// The breaker as the loop holds it in memory. The caller persists it
/// after every transition.
pub struct CircuitBreaker {
    pub state: CircuitState,
    pub failures: u32,
    pub last_commit: String,
    pub opened_at: String,
}

/// Mathematical view of a breaker.
pub struct BreakerView {
    pub state: CircuitState,
    pub failures: u32,
    pub last_commit: Seq<char>,
    pub opened_at: Seq<char>,
}

impl View for CircuitBreaker {
    type V = BreakerView;

    open spec fn view(&self) -> BreakerView {
        BreakerView {
            state: self.state,
            failures: self.failures,
            last_commit: self.last_commit@,
            opened_at: self.opened_at@,
        }
    }
}

/// What `chrono::DateTime::parse_from_rfc3339` followed by
/// `DateTime::timestamp` yields for a given string. The result depends on
/// the characters alone.
pub uninterp spec fn rfc3339_epoch_of(s: Seq<char>) -> Option<i64>;

/// Relies on chrono's `DateTime::parse_from_rfc3339` and
/// `DateTime::timestamp`: parses an RFC 3339 timestamp and returns the
/// epoch second it denotes, or `None` when the text is not a valid
/// RFC 3339 date-and-time.
#[verifier::external_body]
pub fn parse_iso_epoch(iso: &str) -> (r: Option<i64>)
    ensures
        r == rfc3339_epoch_of(iso@),
{
    chrono::DateTime::parse_from_rfc3339(iso).ok().map(|dt| dt.timestamp())
}

/// Elapsed whole minutes between the opening stamp and `now`, never
/// negative.
pub open spec fn spec_elapsed_minutes(opened_epoch: i64, now_epoch: i64) -> int {
    if now_epoch >= opened_epoch {
        (now_epoch - opened_epoch) / 60
    } else {
        0
    }
}

/// What `check` decides: the breaker's next value, and whether the
/// iteration may run.
///
/// `Closed` and `HalfOpen` always allow and change nothing. `Open` with a
/// missing or unparseable stamp self-heals to `Closed` with zero failures
/// and allows. Otherwise the breaker moves to `HalfOpen` and allows once
/// the elapsed minutes reach the cooldown, and denies unchanged before
/// that.
pub open spec fn spec_check(b: BreakerView, cooldown_minutes: u32, now_epoch: i64) -> (
    BreakerView,
    bool,
) {
    match b.state {
        CircuitState::Closed => (b, true),
        CircuitState::HalfOpen => (b, true),
        CircuitState::Open => {
            if b.opened_at.len() == 0 {
                (
                    BreakerView { state: CircuitState::Closed, failures: 0, ..b },
                    true,
                )
            } else {
                match rfc3339_epoch_of(b.opened_at) {
                    None => (
                        BreakerView { state: CircuitState::Closed, failures: 0, ..b },
                        true,
                    ),
                    Some(e) => {
                        if spec_elapsed_minutes(e, now_epoch) >= cooldown_minutes {
                            (BreakerView { state: CircuitState::HalfOpen, ..b }, true)
                        } else {
                            (b, false)
                        }
                    },
                }
            }
        },
    }
}

/// The breaker after a `record`.
///
/// Progress resets the failure counter to zero, closes the breaker and
/// remembers the current progress marker. No progress increments the
/// counter (saturating) and, once it reaches the threshold, opens the
/// breaker and stamps the opening time.
pub open spec fn spec_record(
    b: BreakerView,
    made_progress: bool,
    threshold: u32,
    current_head: Seq<char>,
    now_iso: Seq<char>,
) -> BreakerView {
    if made_progress {
        BreakerView {
            state: CircuitState::Closed,
            failures: 0,
            last_commit: current_head,
            ..b
        }
    } else {
        let f = if b.failures < u32::MAX {
            (b.failures + 1) as u32
        } else {
            b.failures
        };
        if f >= threshold {
            BreakerView { state: CircuitState::Open, failures: f, opened_at: now_iso, ..b }
        } else {
            BreakerView { failures: f, ..b }
        }
    }
}

impl CircuitBreaker {
    /// A breaker assembled from persisted (or default) parts.
    pub fn new(
        state: CircuitState,
        failures: u32,
        last_commit: String,
        opened_at: String,
    ) -> (r: CircuitBreaker)
        ensures
            r@.state == state,
            r@.failures == failures,
            r@.last_commit == last_commit@,
            r@.opened_at == opened_at@,
    {
        CircuitBreaker { state, failures, last_commit, opened_at }
    }

    /// The progress marker recorded when progress was last made.
    pub fn last_commit(&self) -> (r: &str)
        ensures
            r@ == self@.last_commit,
    {
        self.last_commit.as_str()
    }

    /// Gates one iteration; see `spec_check` for the full decision,
    /// including the half-open transition after the cooldown and the
    /// self-healing reset of a corrupt opening stamp.
    pub fn check(&mut self, cooldown_minutes: u32, now_epoch: i64) -> (allow: bool)
        ensures
            final(self)@ == spec_check(old(self)@, cooldown_minutes, now_epoch).0,
            allow == spec_check(old(self)@, cooldown_minutes, now_epoch).1,
    {
        match self.state {
            CircuitState::Closed => true,
            CircuitState::HalfOpen => true,
            CircuitState::Open => {
                if self.opened_at.as_str().is_empty() {
                    self.state = CircuitState::Closed;
                    self.failures = 0;
                    return true;
                }
                match parse_iso_epoch(self.opened_at.as_str()) {
                    None => {
                        self.state = CircuitState::Closed;
                        self.failures = 0;
                        true
                    },
                    Some(e) => {
                        let d: i128 = now_epoch as i128 - e as i128;
                        let elapsed: i128 = if d >= 0 {
                            d / 60
                        } else {
                            0
                        };
                        if elapsed >= cooldown_minutes as i128 {
                            self.state = CircuitState::HalfOpen;
                            true
                        } else {
                            false
                        }
                    },
                }
            },
        }
    }

    /// Minutes of cooldown still to wait before an open breaker would
    /// allow a trial attempt; zero whenever `check` would allow.
    pub fn cooldown_remaining(&self, cooldown_minutes: u32, now_epoch: i64) -> (r: u32)
        ensures
            r as int == (if self@.state == CircuitState::Open && self@.opened_at.len() > 0 {
                match rfc3339_epoch_of(self@.opened_at) {
                    Some(e) => {
                        if spec_elapsed_minutes(e, now_epoch) >= cooldown_minutes {
                            0
                        } else {
                            cooldown_minutes - spec_elapsed_minutes(e, now_epoch)
                        }
                    },
                    None => 0,
                }
            } else {
                0
            }),
    {
        match self.state {
            CircuitState::Open => {
                if self.opened_at.as_str().is_empty() {
                    return 0;
                }
                match parse_iso_epoch(self.opened_at.as_str()) {
                    None => 0,
                    Some(e) => {
                        let d: i128 = now_epoch as i128 - e as i128;
                        let elapsed: i128 = if d >= 0 {
                            d / 60
                        } else {
                            0
                        };
                        if elapsed >= cooldown_minutes as i128 {
                            0
                        } else {
                            cooldown_minutes - (elapsed as u32)
                        }
                    },
                }
            },
            _ => 0,
        }
    }

    /// Records the outcome of one iteration; see `spec_record`.
    pub fn record(&mut self, made_progress: bool, threshold: u32, current_head: &str, now_iso: &str)
        ensures
            final(self)@ == spec_record(
                old(self)@,
                made_progress,
                threshold,
                current_head@,
                now_iso@,
            ),
    {
        if made_progress {
            self.failures = 0;
            self.state = CircuitState::Closed;
            self.last_commit = current_head.to_owned();
        } else {
            if self.failures < u32::MAX {
                self.failures = self.failures + 1;
            }
            if self.failures >= threshold {
                self.state = CircuitState::Open;
                self.opened_at = now_iso.to_owned();
            }
        }
    }
}

/// Cooldown transition: an open breaker whose stamp lies a whole cooldown
/// in the past allows the next check and moves to half-open; one minute
/// short of the cooldown, the check denies and changes nothing.
pub proof fn lemma_breaker_cooldown(
    b: BreakerView,
    cooldown_minutes: u32,
    now_epoch: i64,
    e: i64,
)
    requires
        b.state == CircuitState::Open,
        b.opened_at.len() > 0,
        rfc3339_epoch_of(b.opened_at) == Some(e),
        e <= now_epoch,
    ensures
        now_epoch - e == 60 * cooldown_minutes ==> spec_check(b, cooldown_minutes, now_epoch) == (
            BreakerView { state: CircuitState::HalfOpen, ..b },
            true,
        ),
        cooldown_minutes >= 1 && now_epoch - e == 60 * cooldown_minutes - 60 ==> spec_check(
            b,
            cooldown_minutes,
            now_epoch,
        ) == (b, false),
{
    if now_epoch - e == 60 * cooldown_minutes {
        assert((60 * (cooldown_minutes as int)) / 60 == cooldown_minutes) by (nonlinear_arith);
    }
    if cooldown_minutes >= 1 && now_epoch - e == 60 * cooldown_minutes - 60 {
        assert((60 * (cooldown_minutes as int) - 60) / 60 == cooldown_minutes - 1)
            by (nonlinear_arith);
    }
}

/// Corrupt-state self-heal: an open breaker whose stamp does not parse as
/// a timestamp allows the next check and resets to closed with a clean
/// failure counter.
pub proof fn lemma_breaker_self_heal(b: BreakerView, cooldown_minutes: u32, now_epoch: i64)
    requires
        b.state == CircuitState::Open,
        rfc3339_epoch_of(b.opened_at) is None,
    ensures
        spec_check(b, cooldown_minutes, now_epoch) == (
            BreakerView { state: CircuitState::Closed, failures: 0, ..b },
            true,
        ),
{
}

/// The breaker after `n` consecutive no-progress records, stamped with
/// `stamps[0] .. stamps[n-1]` in turn.
pub open spec fn record_no_progress_n(
    b: BreakerView,
    threshold: u32,
    stamps: Seq<Seq<char>>,
    n: nat,
) -> BreakerView
    decreases n,
{
    if n == 0 {
        b
    } else {
        spec_record(
            record_no_progress_n(b, threshold, stamps, (n - 1) as nat),
            false,
            threshold,
            Seq::empty(),
            stamps[n - 1],
        )
    }
}

/// Breaker monotonicity: under any run of no-progress records the failure
/// counter never decreases, and a progress record resets it to exactly
/// zero, whatever marker and stamp it carries.
pub proof fn lemma_breaker_monotonicity(
    b: BreakerView,
    threshold: u32,
    stamps: Seq<Seq<char>>,
    m: nat,
    n: nat,
)
    requires
        m <= n,
    ensures
        record_no_progress_n(b, threshold, stamps, m).failures <= record_no_progress_n(
            b,
            threshold,
            stamps,
            n,
        ).failures,
        forall|head: Seq<char>, stamp: Seq<char>|
            spec_record(
                record_no_progress_n(b, threshold, stamps, n),
                true,
                threshold,
                head,
                stamp,
            ).failures == 0,
    decreases n,
{
    if m < n {
        lemma_breaker_monotonicity(b, threshold, stamps, m, (n - 1) as nat);
    }
}

/// Breaker threshold: starting closed with a clean counter, exactly
/// `threshold` consecutive no-progress records open the breaker, while
/// `threshold - 1` leave it closed.
pub proof fn lemma_breaker_threshold(
    b: BreakerView,
    threshold: u32,
    stamps: Seq<Seq<char>>,
)
    requires
        b.state == CircuitState::Closed,
        b.failures == 0,
        threshold >= 1,
    ensures
        record_no_progress_n(b, threshold, stamps, threshold as nat).state == CircuitState::Open,
        record_no_progress_n(b, threshold, stamps, (threshold - 1) as nat).state
            == CircuitState::Closed,
{
    lemma_breaker_below_threshold(b, threshold, stamps, (threshold - 1) as nat);
}

/// Below the threshold the breaker stays closed and the counter counts
/// the records.
proof fn lemma_breaker_below_threshold(
    b: BreakerView,
    threshold: u32,
    stamps: Seq<Seq<char>>,
    n: nat,
)
    requires
        b.state == CircuitState::Closed,
        b.failures == 0,
        n < threshold,
    ensures
        record_no_progress_n(b, threshold, stamps, n).state == CircuitState::Closed,
        record_no_progress_n(b, threshold, stamps, n).failures == n,
    decreases n,
{
    if n > 0 {
        lemma_breaker_below_threshold(b, threshold, stamps, (n - 1) as nat);
    }
}

} // verus!
