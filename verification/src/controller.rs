//! The loop controller: a state machine that sequences the build, review
//! and fix phases of one iteration, gates each iteration on the circuit
//! breaker and the task counts, and decides the run's terminal exit.
//!
//! The controller holds only decisions and durable state; the caller
//! performs the outside work a `Directive` asks for (invoking the agent,
//! writing task records, persisting checkpoints and logs) and feeds the
//! outcome back through the `on_*` methods.

use vstd::prelude::*;
use vstd::string::*;
use crate::agent::{parse_kv, spec_parse_kv, spec_tag_pat};
use crate::breaker::{spec_check, spec_record, CircuitBreaker};
use crate::status::TaskStatus;
use crate::text::{parse_u32, spec_contains, spec_parse_u32};

verus! {

pub const EXIT_OK: i32 = 0;

pub const EXIT_MAX_ITERATIONS: i32 = 1;

pub const EXIT_BLOCKED: i32 = 2;

pub const EXIT_CIRCUIT_OPEN: i32 = 3;

pub const EXIT_ERROR: i32 = 4;

/// Why a run ended. The first six are deliberate terminal states; the
/// last two abort the run: the session is not finalised and the resume
/// checkpoint is kept as it stands.
#[derive(Clone, Copy, PartialEq, Eq, Structural, Debug)]
pub enum ExitReason {
    /// Every task is done.
    Complete,
    /// The agent or the tracker reported an unresolvable condition.
    Blocked,
    /// The circuit breaker denied the iteration.
    CircuitOpen,
    /// The per-run task budget was reached; resumable.
    TaskLimit,
    /// A single cycle was requested and has run; resumable.
    Once,
    /// The iteration budget ran out with work remaining.
    MaxIterations,
    /// The agent broke the output contract (missing or unknown status).
    ProtocolViolation,
    /// Review kept failing through every allowed fix attempt.
    FixAttemptsExhausted,
}

impl ExitReason {
    /// The process exit code the reason maps to.
    pub open spec fn spec_exit_code(self) -> i32 {
        match self {
            ExitReason::Complete => 0,
            ExitReason::Blocked => 2,
            ExitReason::CircuitOpen => 3,
            ExitReason::TaskLimit => 0,
            ExitReason::Once => 0,
            ExitReason::MaxIterations => 1,
            ExitReason::ProtocolViolation => 4,
            ExitReason::FixAttemptsExhausted => 4,
        }
    }

    pub fn exit_code(self) -> (r: i32)
        ensures
            r == self.spec_exit_code(),
    {
        match self {
            ExitReason::Complete => EXIT_OK,
            ExitReason::Blocked => EXIT_BLOCKED,
            ExitReason::CircuitOpen => EXIT_CIRCUIT_OPEN,
            ExitReason::TaskLimit => EXIT_OK,
            ExitReason::Once => EXIT_OK,
            ExitReason::MaxIterations => EXIT_MAX_ITERATIONS,
            ExitReason::ProtocolViolation => EXIT_ERROR,
            ExitReason::FixAttemptsExhausted => EXIT_ERROR,
        }
    }

    /// The token recorded as the session's exit reason.
    pub open spec fn spec_label(self) -> Seq<char> {
        match self {
            ExitReason::Complete => "COMPLETE"@,
            ExitReason::Blocked => "BLOCKED"@,
            ExitReason::CircuitOpen => "CIRCUIT_OPEN"@,
            ExitReason::TaskLimit => "TASK_LIMIT"@,
            ExitReason::Once => "ONCE"@,
            ExitReason::MaxIterations => "MAX_ITERATIONS"@,
            ExitReason::ProtocolViolation => "ERROR"@,
            ExitReason::FixAttemptsExhausted => "ERROR"@,
        }
    }

    pub fn label(self) -> (r: &'static str)
        ensures
            r@ == self.spec_label(),
    {
        match self {
            ExitReason::Complete => "COMPLETE",
            ExitReason::Blocked => "BLOCKED",
            ExitReason::CircuitOpen => "CIRCUIT_OPEN",
            ExitReason::TaskLimit => "TASK_LIMIT",
            ExitReason::Once => "ONCE",
            ExitReason::MaxIterations => "MAX_ITERATIONS",
            ExitReason::ProtocolViolation => "ERROR",
            ExitReason::FixAttemptsExhausted => "ERROR",
        }
    }

    /// A later run may pick the session up where this one stopped.
    pub open spec fn spec_is_resumable(self) -> bool {
        self == ExitReason::TaskLimit || self == ExitReason::Once
    }

    pub fn is_resumable(self) -> (r: bool)
        ensures
            r == self.spec_is_resumable(),
    {
        match self {
            ExitReason::TaskLimit => true,
            ExitReason::Once => true,
            _ => false,
        }
    }

    /// An abnormal end: the caller neither finalises the session nor
    /// clears the resume checkpoint.
    pub open spec fn spec_is_error(self) -> bool {
        self == ExitReason::ProtocolViolation || self == ExitReason::FixAttemptsExhausted
    }

    pub fn is_error(self) -> (r: bool)
        ensures
            r == self.spec_is_error(),
    {
        match self {
            ExitReason::ProtocolViolation => true,
            ExitReason::FixAttemptsExhausted => true,
            _ => false,
        }
    }
}

/// The outcome recorded for one iteration.
#[derive(Clone, Copy, PartialEq, Eq, Structural, Debug)]
pub enum IterationOutcome {
    Complete,
    Blocked,
    BlockedNoPending,
    NoPending,
    SkipReview,
    Pass,
    PassAfterFix,
}

impl IterationOutcome {
    pub open spec fn spec_label(self) -> Seq<char> {
        match self {
            IterationOutcome::Complete => "complete"@,
            IterationOutcome::Blocked => "blocked"@,
            IterationOutcome::BlockedNoPending => "blocked-no-pending"@,
            IterationOutcome::NoPending => "no-pending"@,
            IterationOutcome::SkipReview => "skip-review"@,
            IterationOutcome::Pass => "pass"@,
            IterationOutcome::PassAfterFix => "pass-after-fix"@,
        }
    }

    pub fn label(self) -> (r: &'static str)
        ensures
            r@ == self.spec_label(),
    {
        match self {
            IterationOutcome::Complete => "complete",
            IterationOutcome::Blocked => "blocked",
            IterationOutcome::BlockedNoPending => "blocked-no-pending",
            IterationOutcome::NoPending => "no-pending",
            IterationOutcome::SkipReview => "skip-review",
            IterationOutcome::Pass => "pass",
            IterationOutcome::PassAfterFix => "pass-after-fix",
        }
    }
}

/// One phase of an iteration, as recorded in the resume checkpoint.
#[derive(Clone, Copy, PartialEq, Eq, Structural, Debug)]
pub enum Phase {
    Build,
    Review,
    Fix,
}

impl Phase {
    pub open spec fn spec_label(self) -> Seq<char> {
        match self {
            Phase::Build => "build"@,
            Phase::Review => "review"@,
            Phase::Fix => "fix"@,
        }
    }

    pub fn label(self) -> (r: &'static str)
        ensures
            r@ == self.spec_label(),
    {
        match self {
            Phase::Build => "build",
            Phase::Review => "review",
            Phase::Fix => "fix",
        }
    }
}

/// Reads a checkpoint phase token back; anything unknown is `None`.
pub fn parse_phase(s: &str) -> (r: Option<Phase>)
    ensures
        r == (if s@ == "build"@ {
            Some(Phase::Build)
        } else if s@ == "review"@ {
            Some(Phase::Review)
        } else if s@ == "fix"@ {
            Some(Phase::Fix)
        } else {
            None::<Phase>
        }),
{
    if crate::text::str_eq(s, "build") {
        Some(Phase::Build)
    } else if crate::text::str_eq(s, "review") {
        Some(Phase::Review)
    } else if crate::text::str_eq(s, "fix") {
        Some(Phase::Fix)
    } else {
        None
    }
}

/// Where the controller stands inside the current iteration.
#[derive(Clone, Copy, PartialEq, Eq, Structural, Debug)]
pub enum Stage {
    /// Between iterations; `begin_iteration` is next.
    Ready,
    /// A build invocation is out.
    Building,
    /// A review invocation is out.
    Reviewing,
    /// A fix invocation is out.
    Fixing { attempt: u32 },
    /// A post-fix review invocation is out.
    Rechecking { attempt: u32 },
    /// The run is over.
    Finished,
}

/// The limits and switches of one run.
#[derive(Clone, Copy)]
pub struct RunConfig {
    pub max_loops: u32,
    pub max_review_fix_loops: u32,
    pub max_tasks_per_run: u32,
    pub cb_no_progress_threshold: u32,
    pub cb_cooldown_minutes: u32,
    pub skip_review: bool,
    pub once: bool,
}

/// One entry of the iteration log. The caller adds the task name and the
/// wall-clock duration, which only it knows.
pub struct IterationLog {
    pub index: u32,
    pub outcome: IterationOutcome,
    pub cost_microusd: u64,
    pub must_fix_count: u32,
    pub should_fix_count: u32,
    pub commit_sha: String,
}

/// A resume checkpoint the caller must persist before risky work.
pub struct CheckpointData {
    pub phase: Phase,
    pub before_sha: String,
}

/// What the caller must do next.
pub enum Directive {
    /// Invoke the agent with a build prompt.
    RunBuild,
    /// Invoke the agent with a review prompt scoped to the diff since
    /// `baseline` (empty: no baseline, review the latest changes).
    RunReview { baseline: String },
    /// Invoke the agent with a fix prompt carrying the last review
    /// findings.
    RunFix { attempt: u32 },
    /// The iteration is over; call `begin_iteration` again.
    NextIteration,
    /// The run is over.
    Finish { reason: ExitReason },
}

/// One step's decisions: the next directive plus the durable effects the
/// caller must apply.
pub struct StepResult {
    pub directive: Directive,
    /// Status to write into the current task record, if any.
    pub set_status: Option<TaskStatus>,
    /// Iteration log entry to append, if any.
    pub log: Option<IterationLog>,
    /// Resume checkpoint to persist, if any.
    pub checkpoint: Option<CheckpointData>,
}

/// The `BUILD_STATUS` token of an agent output; empty when missing.
pub open spec fn spec_build_status(out: Seq<char>) -> Seq<char> {
    match spec_parse_kv(out, "BUILD_STATUS"@) {
        Some(v) => v,
        None => Seq::empty(),
    }
}

/// The `REVIEW_STATUS` token of an agent output; empty when missing.
pub open spec fn spec_review_status(out: Seq<char>) -> Seq<char> {
    match spec_parse_kv(out, "REVIEW_STATUS"@) {
        Some(v) => v,
        None => Seq::empty(),
    }
}

/// A numeric `KEY: n` field; zero when missing or unreadable.
pub open spec fn spec_count_kv(out: Seq<char>, key: Seq<char>) -> u32 {
    match spec_parse_kv(out, key) {
        Some(v) => match spec_parse_u32(v) {
            Some(n) => n,
            None => 0,
        },
        None => 0,
    }
}

/// Whether a review demands fixes: a `FAIL` status or any must-fix or
/// should-fix finding.
pub open spec fn spec_needs_fix(out: Seq<char>) -> bool {
    spec_review_status(out) == "FAIL"@ || spec_count_kv(out, "MUST_FIX_COUNT"@) > 0
        || spec_count_kv(out, "SHOULD_FIX_COUNT"@) > 0
}

/// A clean recheck: `PASS` with both counts at zero.
pub open spec fn spec_review_clean(out: Seq<char>) -> bool {
    spec_review_status(out) == "PASS"@ && spec_count_kv(out, "MUST_FIX_COUNT"@) == 0
        && spec_count_kv(out, "SHOULD_FIX_COUNT"@) == 0
}

/// The out-of-band `BLOCKED` promise tag.
pub open spec fn spec_has_blocked_tag(out: Seq<char>) -> bool {
    spec_contains(out, spec_tag_pat("BLOCKED"@))
}

/// The out-of-band `COMPLETE` promise tag.
pub open spec fn spec_has_complete_tag(out: Seq<char>) -> bool {
    spec_contains(out, spec_tag_pat("COMPLETE"@))
}

/// Extracts the `BUILD_STATUS` token, empty when missing.
pub fn get_build_status(output: &str) -> (r: String)
    ensures
        r@ == spec_build_status(output@),
{
    match parse_kv(output, "BUILD_STATUS") {
        Some(v) => v,
        None => String::new(),
    }
}

/// Extracts the `REVIEW_STATUS` token, empty when missing.
pub fn get_review_status(output: &str) -> (r: String)
    ensures
        r@ == spec_review_status(output@),
{
    match parse_kv(output, "REVIEW_STATUS") {
        Some(v) => v,
        None => String::new(),
    }
}

/// Extracts a numeric field, zero when missing or unreadable.
pub fn get_count(output: &str, key: &str) -> (r: u32)
    ensures
        r == spec_count_kv(output@, key@),
{
    match parse_kv(output, key) {
        Some(v) => match parse_u32(v.as_str()) {
            Some(n) => n,
            None => 0,
        },
        None => 0,
    }
}

/// Saturating addition of costs.
pub open spec fn spec_add_cost(a: u64, b: u64) -> u64 {
    if a + b > u64::MAX {
        u64::MAX
    } else {
        (a + b) as u64
    }
}

fn add_cost(a: u64, b: u64) -> (r: u64)
    ensures
        r == spec_add_cost(a, b),
{
    if b <= u64::MAX - a {
        a + b
    } else {
        u64::MAX
    }
}

/// Saturating increment of a counter.
pub open spec fn spec_inc(a: u32) -> u32 {
    if a < u32::MAX {
        (a + 1) as u32
    } else {
        a
    }
}

fn inc(a: u32) -> (r: u32)
    ensures
        r == spec_inc(a),
{
    if a < u32::MAX {
        a + 1
    } else {
        a
    }
}

/// The controller's durable and per-iteration state. The caller owns the
/// persistence of the breaker and the session; the controller owns every
/// decision.
pub struct LoopController {
    pub cfg: RunConfig,
    pub breaker: CircuitBreaker,
    pub stage: Stage,
    /// One-based index of the current iteration.
    pub loop_index: u32,
    /// Iterations completed by this invocation.
    pub iterations_completed: u32,
    /// Iterations recorded by earlier invocations of the session.
    pub total_iterations_base: u32,
    /// Cost across the whole session, micro-dollars.
    pub total_cost_microusd: u64,
    /// Phase to resume at, when a checkpoint asked to skip the build.
    pub resume_phase: Option<Phase>,
    /// Baseline marker the checkpoint recorded.
    pub resume_before_sha: String,
    /// Progress marker captured before the current build.
    pub before_sha: String,
    /// Progress marker captured after the current build.
    pub after_build_sha: String,
    /// Whether the current iteration changed the progress marker.
    pub made_progress: bool,
    pub build_cost: u64,
    pub review_cost: u64,
    pub fix_total_cost: u64,
    pub must_fix_count: u32,
    pub should_fix_count: u32,
    /// The last review output, handed to the fix prompt.
    pub review_findings: String,
}

impl LoopController {
    /// A controller at the start of a run.
    pub fn new(
        cfg: RunConfig,
        breaker: CircuitBreaker,
        loop_index: u32,
        total_iterations_base: u32,
        total_cost_microusd: u64,
        resume_phase: Option<Phase>,
        resume_before_sha: String,
    ) -> (r: LoopController)
        ensures
            r.cfg == cfg,
            r.breaker == breaker,
            r.stage == Stage::Ready,
            r.loop_index == loop_index,
            r.iterations_completed == 0,
            r.total_iterations_base == total_iterations_base,
            r.total_cost_microusd == total_cost_microusd,
            r.resume_phase == resume_phase,
            r.resume_before_sha@ == resume_before_sha@,
    {
        LoopController {
            cfg,
            breaker,
            stage: Stage::Ready,
            loop_index,
            iterations_completed: 0,
            total_iterations_base,
            total_cost_microusd,
            resume_phase,
            resume_before_sha,
            before_sha: String::new(),
            after_build_sha: String::new(),
            made_progress: false,
            build_cost: 0,
            review_cost: 0,
            fix_total_cost: 0,
            must_fix_count: 0,
            should_fix_count: 0,
            review_findings: String::new(),
        }
    }

    /// Gates one iteration and says how it starts.
    ///
    /// In order: an exhausted iteration budget ends the run (`ONCE` when a
    /// single cycle was asked for, `MAX_ITERATIONS` otherwise); a denying
    /// breaker ends it with `CIRCUIT_OPEN` before any agent work; no
    /// remaining tasks end it with `COMPLETE`; a reached task budget ends
    /// it with `TASK_LIMIT`. Otherwise, a checkpoint naming the review or
    /// fix phase skips the build entirely and reviews against the
    /// checkpoint's baseline; anything else starts a build against the
    /// current progress marker.
    pub fn begin_iteration(
        &mut self,
        now_epoch: i64,
        now_iso: &str,
        remaining: u32,
        current_head: &str,
    ) -> (r: StepResult)
        requires
            old(self).stage == Stage::Ready,
        ensures
            final(self).cfg == old(self).cfg,
            final(self).total_iterations_base == old(self).total_iterations_base,
            final(self).total_cost_microusd == old(self).total_cost_microusd,
            ({
                let gate = spec_check(
                    old(self).breaker@,
                    old(self).cfg.cb_cooldown_minutes,
                    now_epoch,
                );
                let budget_hit = old(self).cfg.max_tasks_per_run > 0 && old(
                    self,
                ).iterations_completed >= old(self).cfg.max_tasks_per_run;
                let skipping = match old(self).resume_phase {
                    Some(p) => p != Phase::Build,
                    None => false,
                };
                let progress = gate.0.last_commit.len() == 0 || current_head@
                    != gate.0.last_commit;
                if old(self).loop_index > old(self).cfg.max_loops {
                    &&& final(self).breaker == old(self).breaker
                    &&& final(self).stage == Stage::Finished
                    &&& (r.directive matches Directive::Finish { reason } && reason == (if old(
                        self,
                    ).cfg.once {
                        ExitReason::Once
                    } else {
                        ExitReason::MaxIterations
                    }))
                    &&& final(self).loop_index == old(self).loop_index
                    &&& final(self).iterations_completed == old(self).iterations_completed
                    &&& r.set_status is None
                    &&& r.log is None
                    &&& r.checkpoint is None
                } else if !gate.1 {
                    &&& final(self).breaker@ == gate.0
                    &&& final(self).stage == Stage::Finished
                    &&& (r.directive matches Directive::Finish { reason } && reason
                        == ExitReason::CircuitOpen)
                    &&& final(self).loop_index == old(self).loop_index
                    &&& final(self).iterations_completed == old(self).iterations_completed
                    &&& r.set_status is None
                    &&& r.log is None
                    &&& r.checkpoint is None
                } else if remaining == 0 {
                    &&& final(self).breaker@ == gate.0
                    &&& final(self).stage == Stage::Finished
                    &&& (r.directive matches Directive::Finish { reason } && reason
                        == ExitReason::Complete)
                    &&& final(self).loop_index == old(self).loop_index
                    &&& final(self).iterations_completed == old(self).iterations_completed
                    &&& r.set_status is None
                    &&& r.log is None
                    &&& r.checkpoint is None
                } else if budget_hit {
                    &&& final(self).breaker@ == gate.0
                    &&& final(self).stage == Stage::Finished
                    &&& (r.directive matches Directive::Finish { reason } && reason
                        == ExitReason::TaskLimit)
                    &&& final(self).loop_index == old(self).loop_index
                    &&& final(self).iterations_completed == old(self).iterations_completed
                    &&& r.set_status is None
                    &&& r.log is None
                    &&& r.checkpoint is None
                } else if skipping {
                    &&& final(self).before_sha@ == old(self).resume_before_sha@
                    &&& final(self).after_build_sha@ == current_head@
                    &&& final(self).resume_phase is None
                    &&& final(self).made_progress == progress
                    &&& (r.checkpoint matches Some(cp) && old(self).resume_phase == Some(cp.phase)
                        && cp.before_sha@ == old(self).resume_before_sha@)
                    &&& if old(self).cfg.skip_review {
                        &&& final(self).breaker@ == spec_record(
                            gate.0,
                            progress,
                            old(self).cfg.cb_no_progress_threshold,
                            current_head@,
                            now_iso@,
                        )
                        &&& final(self).stage == Stage::Ready
                        &&& final(self).loop_index == spec_inc(old(self).loop_index)
                        &&& final(self).iterations_completed == spec_inc(
                            old(self).iterations_completed,
                        )
                        &&& r.set_status == Some(TaskStatus::InReview)
                        &&& (r.log matches Some(lg) && lg.index == old(self).loop_index
                            && lg.outcome == IterationOutcome::SkipReview && lg.cost_microusd == 0
                            && lg.must_fix_count == 0 && lg.should_fix_count == 0
                            && lg.commit_sha@ == current_head@)
                        &&& (r.directive matches Directive::NextIteration)
                    } else {
                        &&& final(self).breaker@ == gate.0
                        &&& final(self).stage == Stage::Reviewing
                        &&& final(self).loop_index == old(self).loop_index
                        &&& final(self).iterations_completed == old(self).iterations_completed
                        &&& (r.directive matches Directive::RunReview { baseline } && baseline@
                            == old(self).resume_before_sha@)
                        &&& r.set_status is None
                        &&& r.log is None
                    }
                } else {
                    &&& final(self).breaker@ == gate.0
                    &&& final(self).stage == Stage::Building
                    &&& final(self).before_sha@ == current_head@
                    &&& final(self).resume_phase is None
                    &&& final(self).loop_index == old(self).loop_index
                    &&& final(self).iterations_completed == old(self).iterations_completed
                    &&& final(self).build_cost == 0
                    &&& final(self).review_cost == 0
                    &&& final(self).fix_total_cost == 0
                    &&& (r.directive matches Directive::RunBuild)
                    &&& (r.checkpoint matches Some(cp) && cp.phase == Phase::Build
                        && cp.before_sha@.len() == 0)
                    &&& r.set_status is None
                    &&& r.log is None
                }
            }),
    {
        if self.loop_index > self.cfg.max_loops {
            self.stage = Stage::Finished;
            let reason = if self.cfg.once {
                ExitReason::Once
            } else {
                ExitReason::MaxIterations
            };
            return StepResult {
                directive: Directive::Finish { reason },
                set_status: None,
                log: None,
                checkpoint: None,
            };
        }
        let allow = self.breaker.check(self.cfg.cb_cooldown_minutes, now_epoch);
        if !allow {
            self.stage = Stage::Finished;
            return StepResult {
                directive: Directive::Finish { reason: ExitReason::CircuitOpen },
                set_status: None,
                log: None,
                checkpoint: None,
            };
        }
        if remaining == 0 {
            self.stage = Stage::Finished;
            return StepResult {
                directive: Directive::Finish { reason: ExitReason::Complete },
                set_status: None,
                log: None,
                checkpoint: None,
            };
        }
        if self.cfg.max_tasks_per_run > 0 && self.iterations_completed
            >= self.cfg.max_tasks_per_run {
            self.stage = Stage::Finished;
            return StepResult {
                directive: Directive::Finish { reason: ExitReason::TaskLimit },
                set_status: None,
                log: None,
                checkpoint: None,
            };
        }
        let skipping = match self.resume_phase {
            Some(Phase::Review) => true,
            Some(Phase::Fix) => true,
            _ => false,
        };
        if skipping {
            let p = if let Some(pp) = self.resume_phase {
                pp
            } else {
                Phase::Review
            };
            self.before_sha = self.resume_before_sha.clone();
            self.after_build_sha = current_head.to_owned();
            self.resume_phase = None;
            self.build_cost = 0;
            self.review_cost = 0;
            self.fix_total_cost = 0;
            self.must_fix_count = 0;
            self.should_fix_count = 0;
            let progress = self.breaker.last_commit().is_empty() || !crate::text::str_eq(
                current_head,
                self.breaker.last_commit(),
            );
            self.made_progress = progress;
            let cp = CheckpointData { phase: p, before_sha: self.before_sha.clone() };
            if self.cfg.skip_review {
                self.breaker.record(
                    progress,
                    self.cfg.cb_no_progress_threshold,
                    current_head,
                    now_iso,
                );
                let lg = IterationLog {
                    index: self.loop_index,
                    outcome: IterationOutcome::SkipReview,
                    cost_microusd: 0,
                    must_fix_count: 0,
                    should_fix_count: 0,
                    commit_sha: current_head.to_owned(),
                };
                self.loop_index = inc(self.loop_index);
                self.iterations_completed = inc(self.iterations_completed);
                return StepResult {
                    directive: Directive::NextIteration,
                    set_status: Some(TaskStatus::InReview),
                    log: Some(lg),
                    checkpoint: Some(cp),
                };
            }
            self.stage = Stage::Reviewing;
            return StepResult {
                directive: Directive::RunReview { baseline: self.before_sha.clone() },
                set_status: None,
                log: None,
                checkpoint: Some(cp),
            };
        }
        self.resume_phase = None;
        self.before_sha = current_head.to_owned();
        self.build_cost = 0;
        self.review_cost = 0;
        self.fix_total_cost = 0;
        self.must_fix_count = 0;
        self.should_fix_count = 0;
        self.stage = Stage::Building;
        StepResult {
            directive: Directive::RunBuild,
            set_status: None,
            log: None,
            checkpoint: Some(CheckpointData { phase: Phase::Build, before_sha: String::new() }),
        }
    }

    /// Digests the build phase's output.
    ///
    /// A `COMPLETE` promise tag ends the run complete; a `BLOCKED` tag or
    /// status ends it blocked; a missing or unknown `BUILD_STATUS` is a
    /// protocol violation that aborts the run; `NO_PENDING_TASKS` ends the
    /// run complete, or blocked when the tracker still counts remaining
    /// tasks; `COMPLETED_TASK` sends the task to review (or, with review
    /// skipped, records the breaker against the post-build marker and
    /// closes the iteration).
    pub fn on_build_result(
        &mut self,
        output: &str,
        cost_microusd: u64,
        after_sha: &str,
        remaining_now: u32,
        now_iso: &str,
        has_task: bool,
    ) -> (r: StepResult)
        requires
            old(self).stage == Stage::Building,
        ensures
            final(self).cfg == old(self).cfg,
            final(self).total_iterations_base == old(self).total_iterations_base,
            final(self).build_cost == cost_microusd,
            final(self).total_cost_microusd == spec_add_cost(
                old(self).total_cost_microusd,
                cost_microusd,
            ),
            final(self).after_build_sha@ == after_sha@,
            ({
                let status = spec_build_status(output@);
                let progress = old(self).breaker@.last_commit.len() == 0 || after_sha@ != old(
                    self,
                ).breaker@.last_commit;
                if spec_has_complete_tag(output@) {
                    &&& final(self).stage == Stage::Finished
                    &&& final(self).breaker == old(self).breaker
                    &&& final(self).loop_index == old(self).loop_index
                    &&& final(self).iterations_completed == spec_inc(
                        old(self).iterations_completed,
                    )
                    &&& (r.directive matches Directive::Finish { reason } && reason
                        == ExitReason::Complete)
                    &&& (r.log matches Some(lg) && lg.index == old(self).loop_index && lg.outcome
                        == IterationOutcome::Complete && lg.cost_microusd == cost_microusd
                        && lg.must_fix_count == 0 && lg.should_fix_count == 0 && lg.commit_sha@
                        == after_sha@)
                    &&& r.set_status is None
                    &&& r.checkpoint is None
                } else if spec_has_blocked_tag(output@) {
                    &&& final(self).stage == Stage::Finished
                    &&& final(self).breaker == old(self).breaker
                    &&& final(self).loop_index == old(self).loop_index
                    &&& final(self).iterations_completed == old(self).iterations_completed
                    &&& (r.directive matches Directive::Finish { reason } && reason
                        == ExitReason::Blocked)
                    &&& (r.log matches Some(lg) && lg.index == old(self).loop_index && lg.outcome
                        == IterationOutcome::Blocked && lg.cost_microusd == cost_microusd
                        && lg.commit_sha@ == after_sha@)
                    &&& r.set_status is None
                    &&& r.checkpoint is None
                } else if status.len() == 0 {
                    &&& final(self).stage == Stage::Finished
                    &&& final(self).breaker == old(self).breaker
                    &&& final(self).loop_index == old(self).loop_index
                    &&& final(self).iterations_completed == old(self).iterations_completed
                    &&& (r.directive matches Directive::Finish { reason } && reason
                        == ExitReason::ProtocolViolation)
                    &&& r.set_status is None
                    &&& r.log is None
                    &&& r.checkpoint is None
                } else if status == "NO_PENDING_TASKS"@ {
                    if remaining_now > 0 {
                        &&& final(self).stage == Stage::Finished
                        &&& final(self).breaker == old(self).breaker
                        &&& final(self).loop_index == old(self).loop_index
                        &&& final(self).iterations_completed == old(self).iterations_completed
                        &&& (r.directive matches Directive::Finish { reason } && reason
                            == ExitReason::Blocked)
                        &&& (r.log matches Some(lg) && lg.index == old(self).loop_index
                            && lg.outcome == IterationOutcome::BlockedNoPending
                            && lg.cost_microusd == cost_microusd && lg.commit_sha@ == after_sha@)
                        &&& r.set_status is None
                        &&& r.checkpoint is None
                    } else {
                        &&& final(self).stage == Stage::Finished
                        &&& final(self).breaker == old(self).breaker
                        &&& final(self).loop_index == old(self).loop_index
                        &&& final(self).iterations_completed == spec_inc(
                            old(self).iterations_completed,
                        )
                        &&& (r.directive matches Directive::Finish { reason } && reason
                            == ExitReason::Complete)
                        &&& (r.log matches Some(lg) && lg.index == old(self).loop_index
                            && lg.outcome == IterationOutcome::NoPending && lg.cost_microusd
                            == cost_microusd && lg.commit_sha@ == after_sha@)
                        &&& r.set_status is None
                        &&& r.checkpoint is None
                    }
                } else if status == "BLOCKED"@ {
                    &&& final(self).stage == Stage::Finished
                    &&& final(self).breaker == old(self).breaker
                    &&& final(self).loop_index == old(self).loop_index
                    &&& final(self).iterations_completed == old(self).iterations_completed
                    &&& (r.directive matches Directive::Finish { reason } && reason
                        == ExitReason::Blocked)
                    &&& (r.log matches Some(lg) && lg.index == old(self).loop_index && lg.outcome
                        == IterationOutcome::Blocked && lg.cost_microusd == cost_microusd
                        && lg.commit_sha@ == after_sha@)
                    &&& r.set_status is None
                    &&& r.checkpoint is None
                } else if status == "COMPLETED_TASK"@ {
                    &&& final(self).made_progress == progress
                    &&& r.set_status == (if has_task {
                        Some(TaskStatus::InReview)
                    } else {
                        None::<TaskStatus>
                    })
                    &&& (r.checkpoint matches Some(cp) && cp.phase == Phase::Review
                        && cp.before_sha@ == old(self).before_sha@)
                    &&& if old(self).cfg.skip_review {
                        &&& final(self).breaker@ == spec_record(
                            old(self).breaker@,
                            progress,
                            old(self).cfg.cb_no_progress_threshold,
                            after_sha@,
                            now_iso@,
                        )
                        &&& final(self).stage == Stage::Ready
                        &&& final(self).loop_index == spec_inc(old(self).loop_index)
                        &&& final(self).iterations_completed == spec_inc(
                            old(self).iterations_completed,
                        )
                        &&& (r.log matches Some(lg) && lg.index == old(self).loop_index
                            && lg.outcome == IterationOutcome::SkipReview && lg.cost_microusd
                            == cost_microusd && lg.commit_sha@ == after_sha@)
                        &&& (r.directive matches Directive::NextIteration)
                    } else {
                        &&& final(self).breaker == old(self).breaker
                        &&& final(self).stage == Stage::Reviewing
                        &&& final(self).loop_index == old(self).loop_index
                        &&& final(self).iterations_completed == old(self).iterations_completed
                        &&& (r.directive matches Directive::RunReview { baseline } && baseline@
                            == old(self).before_sha@)
                        &&& r.log is None
                    }
                } else {
                    &&& final(self).stage == Stage::Finished
                    &&& final(self).breaker == old(self).breaker
                    &&& final(self).loop_index == old(self).loop_index
                    &&& final(self).iterations_completed == old(self).iterations_completed
                    &&& (r.directive matches Directive::Finish { reason } && reason
                        == ExitReason::ProtocolViolation)
                    &&& r.set_status is None
                    &&& r.log is None
                    &&& r.checkpoint is None
                }
            }),
    {
        self.build_cost = cost_microusd;
        self.total_cost_microusd = add_cost(self.total_cost_microusd, cost_microusd);
        self.after_build_sha = after_sha.to_owned();
        if crate::agent::has_tag(output, "COMPLETE") {
            self.iterations_completed = inc(self.iterations_completed);
            self.stage = Stage::Finished;
            return StepResult {
                directive: Directive::Finish { reason: ExitReason::Complete },
                set_status: None,
                log: Some(
                    IterationLog {
                        index: self.loop_index,
                        outcome: IterationOutcome::Complete,
                        cost_microusd,
                        must_fix_count: 0,
                        should_fix_count: 0,
                        commit_sha: after_sha.to_owned(),
                    },
                ),
                checkpoint: None,
            };
        }
        if crate::agent::has_tag(output, "BLOCKED") {
            self.stage = Stage::Finished;
            return StepResult {
                directive: Directive::Finish { reason: ExitReason::Blocked },
                set_status: None,
                log: Some(
                    IterationLog {
                        index: self.loop_index,
                        outcome: IterationOutcome::Blocked,
                        cost_microusd,
                        must_fix_count: 0,
                        should_fix_count: 0,
                        commit_sha: after_sha.to_owned(),
                    },
                ),
                checkpoint: None,
            };
        }
        let status = get_build_status(output);
        if status.as_str().is_empty() {
            self.stage = Stage::Finished;
            return StepResult {
                directive: Directive::Finish { reason: ExitReason::ProtocolViolation },
                set_status: None,
                log: None,
                checkpoint: None,
            };
        }
        if crate::text::str_eq(status.as_str(), "NO_PENDING_TASKS") {
            self.stage = Stage::Finished;
            if remaining_now > 0 {
                return StepResult {
                    directive: Directive::Finish { reason: ExitReason::Blocked },
                    set_status: None,
                    log: Some(
                        IterationLog {
                            index: self.loop_index,
                            outcome: IterationOutcome::BlockedNoPending,
                            cost_microusd,
                            must_fix_count: 0,
                            should_fix_count: 0,
                            commit_sha: after_sha.to_owned(),
                        },
                    ),
                    checkpoint: None,
                };
            }
            self.iterations_completed = inc(self.iterations_completed);
            return StepResult {
                directive: Directive::Finish { reason: ExitReason::Complete },
                set_status: None,
                log: Some(
                    IterationLog {
                        index: self.loop_index,
                        outcome: IterationOutcome::NoPending,
                        cost_microusd,
                        must_fix_count: 0,
                        should_fix_count: 0,
                        commit_sha: after_sha.to_owned(),
                    },
                ),
                checkpoint: None,
            };
        }
        if crate::text::str_eq(status.as_str(), "BLOCKED") {
            self.stage = Stage::Finished;
            return StepResult {
                directive: Directive::Finish { reason: ExitReason::Blocked },
                set_status: None,
                log: Some(
                    IterationLog {
                        index: self.loop_index,
                        outcome: IterationOutcome::Blocked,
                        cost_microusd,
                        must_fix_count: 0,
                        should_fix_count: 0,
                        commit_sha: after_sha.to_owned(),
                    },
                ),
                checkpoint: None,
            };
        }
        if !crate::text::str_eq(status.as_str(), "COMPLETED_TASK") {
            self.stage = Stage::Finished;
            return StepResult {
                directive: Directive::Finish { reason: ExitReason::ProtocolViolation },
                set_status: None,
                log: None,
                checkpoint: None,
            };
        }
        let set_status = if has_task {
            Some(TaskStatus::InReview)
        } else {
            None
        };
        let progress = self.breaker.last_commit().is_empty() || !crate::text::str_eq(
            after_sha,
            self.breaker.last_commit(),
        );
        self.made_progress = progress;
        let cp = CheckpointData { phase: Phase::Review, before_sha: self.before_sha.clone() };
        if self.cfg.skip_review {
            self.breaker.record(progress, self.cfg.cb_no_progress_threshold, after_sha, now_iso);
            let lg = IterationLog {
                index: self.loop_index,
                outcome: IterationOutcome::SkipReview,
                cost_microusd,
                must_fix_count: 0,
                should_fix_count: 0,
                commit_sha: after_sha.to_owned(),
            };
            self.loop_index = inc(self.loop_index);
            self.iterations_completed = inc(self.iterations_completed);
            self.stage = Stage::Ready;
            return StepResult {
                directive: Directive::NextIteration,
                set_status,
                log: Some(lg),
                checkpoint: Some(cp),
            };
        }
        self.stage = Stage::Reviewing;
        StepResult {
            directive: Directive::RunReview { baseline: self.before_sha.clone() },
            set_status,
            log: None,
            checkpoint: Some(cp),
        }
    }

    /// Digests the review phase's output.
    ///
    /// A `BLOCKED` tag ends the run blocked. A clean review (`PASS` with
    /// no findings) marks the task done, records progress on the breaker
    /// against the post-build marker, and closes the iteration. Findings
    /// send the iteration into the fix loop, with a checkpoint at the fix
    /// phase.
    pub fn on_review_result(
        &mut self,
        output: &str,
        cost_microusd: u64,
        now_iso: &str,
        has_task: bool,
    ) -> (r: StepResult)
        requires
            old(self).stage == Stage::Reviewing,
        ensures
            final(self).cfg == old(self).cfg,
            final(self).total_iterations_base == old(self).total_iterations_base,
            final(self).review_cost == cost_microusd,
            final(self).total_cost_microusd == spec_add_cost(
                old(self).total_cost_microusd,
                cost_microusd,
            ),
            final(self).must_fix_count == spec_count_kv(output@, "MUST_FIX_COUNT"@),
            final(self).should_fix_count == spec_count_kv(output@, "SHOULD_FIX_COUNT"@),
            final(self).review_findings@ == output@,
            ({
                if spec_has_blocked_tag(output@) {
                    &&& final(self).stage == Stage::Finished
                    &&& final(self).breaker == old(self).breaker
                    &&& final(self).loop_index == old(self).loop_index
                    &&& final(self).iterations_completed == old(self).iterations_completed
                    &&& (r.directive matches Directive::Finish { reason } && reason
                        == ExitReason::Blocked)
                    &&& r.set_status is None
                    &&& r.log is None
                    &&& r.checkpoint is None
                } else if !spec_needs_fix(output@) {
                    &&& r.set_status == (if has_task {
                        Some(TaskStatus::Done)
                    } else {
                        None::<TaskStatus>
                    })
                    &&& final(self).breaker@ == spec_record(
                        old(self).breaker@,
                        old(self).made_progress,
                        old(self).cfg.cb_no_progress_threshold,
                        old(self).after_build_sha@,
                        now_iso@,
                    )
                    &&& final(self).stage == Stage::Ready
                    &&& final(self).loop_index == spec_inc(old(self).loop_index)
                    &&& final(self).iterations_completed == spec_inc(
                        old(self).iterations_completed,
                    )
                    &&& (r.log matches Some(lg) && lg.index == old(self).loop_index && lg.outcome
                        == IterationOutcome::Pass && lg.cost_microusd == spec_add_cost(
                        old(self).build_cost,
                        cost_microusd,
                    ) && lg.must_fix_count == spec_count_kv(output@, "MUST_FIX_COUNT"@)
                        && lg.should_fix_count == spec_count_kv(output@, "SHOULD_FIX_COUNT"@)
                        && lg.commit_sha@ == old(self).after_build_sha@)
                    &&& (r.directive matches Directive::NextIteration)
                    &&& r.checkpoint is None
                } else {
                    &&& final(self).breaker == old(self).breaker
                    &&& final(self).stage == (Stage::Fixing { attempt: 1 })
                    &&& final(self).loop_index == old(self).loop_index
                    &&& final(self).iterations_completed == old(self).iterations_completed
                    &&& (r.directive matches Directive::RunFix { attempt } && attempt == 1)
                    &&& (r.checkpoint matches Some(cp) && cp.phase == Phase::Fix
                        && cp.before_sha@ == old(self).before_sha@)
                    &&& r.set_status is None
                    &&& r.log is None
                }
            }),
    {
        self.review_cost = cost_microusd;
        self.total_cost_microusd = add_cost(self.total_cost_microusd, cost_microusd);
        self.must_fix_count = get_count(output, "MUST_FIX_COUNT");
        self.should_fix_count = get_count(output, "SHOULD_FIX_COUNT");
        self.review_findings = output.to_owned();
        if crate::agent::has_tag(output, "BLOCKED") {
            self.stage = Stage::Finished;
            return StepResult {
                directive: Directive::Finish { reason: ExitReason::Blocked },
                set_status: None,
                log: None,
                checkpoint: None,
            };
        }
        let status = get_review_status(output);
        let needs_fix = crate::text::str_eq(status.as_str(), "FAIL") || self.must_fix_count > 0
            || self.should_fix_count > 0;
        if !needs_fix {
            let set_status = if has_task {
                Some(TaskStatus::Done)
            } else {
                None
            };
            self.breaker.record(
                self.made_progress,
                self.cfg.cb_no_progress_threshold,
                self.after_build_sha.clone().as_str(),
                now_iso,
            );
            let lg = IterationLog {
                index: self.loop_index,
                outcome: IterationOutcome::Pass,
                cost_microusd: add_cost(self.build_cost, cost_microusd),
                must_fix_count: self.must_fix_count,
                should_fix_count: self.should_fix_count,
                commit_sha: self.after_build_sha.clone(),
            };
            self.loop_index = inc(self.loop_index);
            self.iterations_completed = inc(self.iterations_completed);
            self.stage = Stage::Ready;
            return StepResult {
                directive: Directive::NextIteration,
                set_status,
                log: Some(lg),
                checkpoint: None,
            };
        }
        self.stage = Stage::Fixing { attempt: 1 };
        StepResult {
            directive: Directive::RunFix { attempt: 1 },
            set_status: None,
            log: None,
            checkpoint: Some(
                CheckpointData { phase: Phase::Fix, before_sha: self.before_sha.clone() },
            ),
        }
    }

    /// Digests a fix attempt's output: a `BLOCKED` tag ends the run;
    /// anything else sends the iteration back to review against the same
    /// baseline.
    pub fn on_fix_result(&mut self, output: &str, cost_microusd: u64) -> (r: StepResult)
        requires
            old(self).stage matches Stage::Fixing { attempt: _ },
        ensures
            final(self).cfg == old(self).cfg,
            final(self).total_iterations_base == old(self).total_iterations_base,
            final(self).total_cost_microusd == spec_add_cost(
                old(self).total_cost_microusd,
                cost_microusd,
            ),
            final(self).fix_total_cost == spec_add_cost(old(self).fix_total_cost, cost_microusd),
            final(self).breaker == old(self).breaker,
            final(self).loop_index == old(self).loop_index,
            final(self).iterations_completed == old(self).iterations_completed,
            ({
                if spec_has_blocked_tag(output@) {
                    &&& final(self).stage == Stage::Finished
                    &&& (r.directive matches Directive::Finish { reason } && reason
                        == ExitReason::Blocked)
                    &&& r.set_status is None
                    &&& r.log is None
                    &&& r.checkpoint is None
                } else {
                    &&& (old(self).stage matches Stage::Fixing { attempt } && final(self).stage
                        == (Stage::Rechecking { attempt }))
                    &&& (r.directive matches Directive::RunReview { baseline } && baseline@ == old(
                        self,
                    ).before_sha@)
                    &&& r.set_status is None
                    &&& r.log is None
                    &&& r.checkpoint is None
                }
            }),
    {
        self.total_cost_microusd = add_cost(self.total_cost_microusd, cost_microusd);
        self.fix_total_cost = add_cost(self.fix_total_cost, cost_microusd);
        if crate::agent::has_tag(output, "BLOCKED") {
            self.stage = Stage::Finished;
            return StepResult {
                directive: Directive::Finish { reason: ExitReason::Blocked },
                set_status: None,
                log: None,
                checkpoint: None,
            };
        }
        let a = if let Stage::Fixing { attempt } = self.stage {
            attempt
        } else {
            1
        };
        self.stage = Stage::Rechecking { attempt: a };
        StepResult {
            directive: Directive::RunReview { baseline: self.before_sha.clone() },
            set_status: None,
            log: None,
            checkpoint: None,
        }
    }

    /// Digests a post-fix review's output.
    ///
    /// A `BLOCKED` tag ends the run blocked. A clean recheck marks the
    /// task done, records the breaker against the final marker, and logs
    /// the iteration with the cumulative build, review and fix costs. An
    /// unclean recheck starts the next fix attempt, until the attempt
    /// budget runs out — which aborts the whole run, leaving the fix-phase
    /// checkpoint in place.
    pub fn on_recheck_result(
        &mut self,
        output: &str,
        cost_microusd: u64,
        current_head: &str,
        now_iso: &str,
        has_task: bool,
    ) -> (r: StepResult)
        requires
            old(self).stage matches Stage::Rechecking { attempt: _ },
        ensures
            final(self).cfg == old(self).cfg,
            final(self).total_iterations_base == old(self).total_iterations_base,
            final(self).total_cost_microusd == spec_add_cost(
                old(self).total_cost_microusd,
                cost_microusd,
            ),
            final(self).fix_total_cost == spec_add_cost(old(self).fix_total_cost, cost_microusd),
            final(self).must_fix_count == spec_count_kv(output@, "MUST_FIX_COUNT"@),
            final(self).should_fix_count == spec_count_kv(output@, "SHOULD_FIX_COUNT"@),
            final(self).review_findings@ == output@,
            ({
                let progress = old(self).breaker@.last_commit.len() == 0 || current_head@ != old(
                    self,
                ).breaker@.last_commit;
                if spec_has_blocked_tag(output@) {
                    &&& final(self).stage == Stage::Finished
                    &&& final(self).breaker == old(self).breaker
                    &&& final(self).loop_index == old(self).loop_index
                    &&& final(self).iterations_completed == old(self).iterations_completed
                    &&& (r.directive matches Directive::Finish { reason } && reason
                        == ExitReason::Blocked)
                    &&& r.set_status is None
                    &&& r.log is None
                    &&& r.checkpoint is None
                } else if spec_review_clean(output@) {
                    &&& r.set_status == (if has_task {
                        Some(TaskStatus::Done)
                    } else {
                        None::<TaskStatus>
                    })
                    &&& final(self).made_progress == progress
                    &&& final(self).breaker@ == spec_record(
                        old(self).breaker@,
                        progress,
                        old(self).cfg.cb_no_progress_threshold,
                        current_head@,
                        now_iso@,
                    )
                    &&& final(self).stage == Stage::Ready
                    &&& final(self).loop_index == spec_inc(old(self).loop_index)
                    &&& final(self).iterations_completed == spec_inc(
                        old(self).iterations_completed,
                    )
                    &&& (r.log matches Some(lg) && lg.index == old(self).loop_index && lg.outcome
                        == IterationOutcome::PassAfterFix && lg.cost_microusd == spec_add_cost(
                        spec_add_cost(old(self).build_cost, old(self).review_cost),
                        spec_add_cost(old(self).fix_total_cost, cost_microusd),
                    ) && lg.must_fix_count == spec_count_kv(output@, "MUST_FIX_COUNT"@)
                        && lg.should_fix_count == spec_count_kv(output@, "SHOULD_FIX_COUNT"@)
                        && lg.commit_sha@ == current_head@)
                    &&& (r.directive matches Directive::NextIteration)
                    &&& r.checkpoint is None
                } else if (old(self).stage matches Stage::Rechecking { attempt } && attempt >= old(
                    self,
                ).cfg.max_review_fix_loops) {
                    &&& final(self).stage == Stage::Finished
                    &&& final(self).breaker == old(self).breaker
                    &&& final(self).loop_index == old(self).loop_index
                    &&& final(self).iterations_completed == old(self).iterations_completed
                    &&& (r.directive matches Directive::Finish { reason } && reason
                        == ExitReason::FixAttemptsExhausted)
                    &&& r.set_status is None
                    &&& r.log is None
                    &&& r.checkpoint is None
                } else {
                    &&& final(self).breaker == old(self).breaker
                    &&& final(self).loop_index == old(self).loop_index
                    &&& final(self).iterations_completed == old(self).iterations_completed
                    &&& (old(self).stage matches Stage::Rechecking { attempt } && final(self).stage
                        == (Stage::Fixing { attempt: spec_inc(attempt) }) && (
                    r.directive matches Directive::RunFix { attempt: a2 } && a2 == spec_inc(
                        attempt,
                    )))
                    &&& r.set_status is None
                    &&& r.log is None
                    &&& r.checkpoint is None
                }
            }),
    {
        self.total_cost_microusd = add_cost(self.total_cost_microusd, cost_microusd);
        self.fix_total_cost = add_cost(self.fix_total_cost, cost_microusd);
        self.must_fix_count = get_count(output, "MUST_FIX_COUNT");
        self.should_fix_count = get_count(output, "SHOULD_FIX_COUNT");
        self.review_findings = output.to_owned();
        if crate::agent::has_tag(output, "BLOCKED") {
            self.stage = Stage::Finished;
            return StepResult {
                directive: Directive::Finish { reason: ExitReason::Blocked },
                set_status: None,
                log: None,
                checkpoint: None,
            };
        }
        let status = get_review_status(output);
        let clean = crate::text::str_eq(status.as_str(), "PASS") && self.must_fix_count == 0
            && self.should_fix_count == 0;
        if clean {
            let set_status = if has_task {
                Some(TaskStatus::Done)
            } else {
                None
            };
            let progress = self.breaker.last_commit().is_empty() || !crate::text::str_eq(
                current_head,
                self.breaker.last_commit(),
            );
            self.made_progress = progress;
            self.breaker.record(
                progress,
                self.cfg.cb_no_progress_threshold,
                current_head,
                now_iso,
            );
            let lg = IterationLog {
                index: self.loop_index,
                outcome: IterationOutcome::PassAfterFix,
                cost_microusd: add_cost(
                    add_cost(self.build_cost, self.review_cost),
                    self.fix_total_cost,
                ),
                must_fix_count: self.must_fix_count,
                should_fix_count: self.should_fix_count,
                commit_sha: current_head.to_owned(),
            };
            self.loop_index = inc(self.loop_index);
            self.iterations_completed = inc(self.iterations_completed);
            self.stage = Stage::Ready;
            return StepResult {
                directive: Directive::NextIteration,
                set_status,
                log: Some(lg),
                checkpoint: None,
            };
        }
        let a = if let Stage::Rechecking { attempt } = self.stage {
            attempt
        } else {
            1
        };
        if a >= self.cfg.max_review_fix_loops {
            self.stage = Stage::Finished;
            return StepResult {
                directive: Directive::Finish { reason: ExitReason::FixAttemptsExhausted },
                set_status: None,
                log: None,
                checkpoint: None,
            };
        }
        let a2 = inc(a);
        self.stage = Stage::Fixing { attempt: a2 };
        StepResult {
            directive: Directive::RunFix { attempt: a2 },
            set_status: None,
            log: None,
            checkpoint: None,
        }
    }

    /// The total iteration count the session should record now.
    pub fn total_iterations(&self) -> (r: u32)
        ensures
            r == spec_add_iters(self.total_iterations_base, self.iterations_completed),
    {
        if self.iterations_completed <= u32::MAX - self.total_iterations_base {
            self.total_iterations_base + self.iterations_completed
        } else {
            u32::MAX
        }
    }
}

/// Saturating addition of iteration counts.
pub open spec fn spec_add_iters(a: u32, b: u32) -> u32 {
    if a + b > u32::MAX {
        u32::MAX
    } else {
        (a + b) as u32
    }
}

} // verus!
