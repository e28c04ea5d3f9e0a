use specloop::breaker::{CircuitBreaker, CircuitState};
use specloop::controller::{
    parse_phase, Directive, ExitReason, IterationOutcome, LoopController, Phase, RunConfig, Stage,
    EXIT_BLOCKED, EXIT_CIRCUIT_OPEN, EXIT_ERROR, EXIT_MAX_ITERATIONS, EXIT_OK,
};
use specloop::status::TaskStatus;
use chrono::{TimeZone, Utc};

const NOW: i64 = 1_700_000_000;
const NOW_ISO: &str = "2023-11-14T22:13:20Z";

fn cfg() -> RunConfig {
    RunConfig {
        max_loops: 25,
        max_review_fix_loops: 3,
        max_tasks_per_run: 0,
        cb_no_progress_threshold: 3,
        cb_cooldown_minutes: 30,
        skip_review: false,
        once: false,
    }
}

fn closed_breaker() -> CircuitBreaker {
    CircuitBreaker::new(CircuitState::Closed, 0, String::new(), String::new())
}

fn controller(cfg: RunConfig) -> LoopController {
    LoopController::new(cfg, closed_breaker(), 1, 0, 0, None, String::new())
}

#[test]
fn clean_pass_scenario() {
    // One pending task; the build completes it and review passes clean.
    let mut c = controller(cfg());
    let step = c.begin_iteration(NOW, NOW_ISO, 1, "sha-before");
    assert!(matches!(step.directive, Directive::RunBuild));
    let cp = step.checkpoint.expect("build checkpoint");
    assert_eq!(cp.phase, Phase::Build);
    assert_eq!(cp.before_sha, "");

    let step = c.on_build_result(
        "done\nBUILD_STATUS: COMPLETED_TASK\n",
        2_000_000,
        "sha-after",
        1,
        NOW_ISO,
        true,
    );
    assert_eq!(step.set_status, Some(TaskStatus::InReview));
    match &step.directive {
        Directive::RunReview { baseline } => assert_eq!(baseline, "sha-before"),
        other => panic!("expected review, got {:?}", directive_name(other)),
    }
    let cp = step.checkpoint.expect("review checkpoint");
    assert_eq!(cp.phase, Phase::Review);
    assert_eq!(cp.before_sha, "sha-before");
    assert!(c.made_progress);

    let step = c.on_review_result(
        "REVIEW_STATUS: PASS\nMUST_FIX_COUNT: 0\nSHOULD_FIX_COUNT: 0\n",
        1_000_000,
        NOW_ISO,
        true,
    );
    assert_eq!(step.set_status, Some(TaskStatus::Done));
    assert!(matches!(step.directive, Directive::NextIteration));
    let log = step.log.expect("iteration log");
    assert_eq!(log.outcome, IterationOutcome::Pass);
    assert_eq!(log.cost_microusd, 3_000_000);
    assert_eq!(log.index, 1);
    // The breaker recorded progress.
    assert_eq!(c.breaker.state, CircuitState::Closed);
    assert_eq!(c.breaker.failures, 0);
    assert_eq!(c.breaker.last_commit(), "sha-after");
    assert_eq!(c.loop_index, 2);
    assert_eq!(c.iterations_completed, 1);
}

#[test]
fn fix_convergence_scenario() {
    // Review fails with two must-fix findings; one fix converges.
    let mut c = controller(cfg());
    c.begin_iteration(NOW, NOW_ISO, 1, "base");
    c.on_build_result("BUILD_STATUS: COMPLETED_TASK\n", 1_000_000, "after", 1, NOW_ISO, true);
    let step = c.on_review_result(
        "REVIEW_STATUS: FAIL\nMUST_FIX_COUNT: 2\nSHOULD_FIX_COUNT: 0\n",
        500_000,
        NOW_ISO,
        true,
    );
    assert!(matches!(step.directive, Directive::RunFix { attempt: 1 }));
    let cp = step.checkpoint.expect("fix checkpoint");
    assert_eq!(cp.phase, Phase::Fix);
    assert_eq!(cp.before_sha, "base");
    assert_eq!(c.must_fix_count, 2);

    let step = c.on_fix_result("BUILD_STATUS: FIXES_APPLIED\n", 300_000);
    match &step.directive {
        Directive::RunReview { baseline } => assert_eq!(baseline, "base"),
        _ => panic!("expected recheck"),
    }

    let step = c.on_recheck_result(
        "REVIEW_STATUS: PASS\nMUST_FIX_COUNT: 0\nSHOULD_FIX_COUNT: 0\n",
        200_000,
        "after-fix",
        NOW_ISO,
        true,
    );
    assert_eq!(step.set_status, Some(TaskStatus::Done));
    let log = step.log.expect("iteration log");
    assert_eq!(log.outcome, IterationOutcome::PassAfterFix);
    // Cumulative cost: build + review + fix + recheck.
    assert_eq!(log.cost_microusd, 1_000_000 + 500_000 + 300_000 + 200_000);
    assert_eq!(log.commit_sha, "after-fix");
    assert!(matches!(step.directive, Directive::NextIteration));
    assert_eq!(c.total_cost_microusd, 2_000_000);
}

#[test]
fn exhausted_fix_attempts_abort_the_run() {
    let mut c = controller(cfg());
    c.begin_iteration(NOW, NOW_ISO, 1, "base");
    c.on_build_result("BUILD_STATUS: COMPLETED_TASK\n", 0, "after", 1, NOW_ISO, true);
    c.on_review_result("REVIEW_STATUS: FAIL\nMUST_FIX_COUNT: 1\nSHOULD_FIX_COUNT: 0\n", 0, NOW_ISO, true);
    for attempt in 1..=3u32 {
        let step = c.on_fix_result("BUILD_STATUS: FIXES_APPLIED\n", 0);
        assert!(matches!(step.directive, Directive::RunReview { .. }));
        let step = c.on_recheck_result(
            "REVIEW_STATUS: FAIL\nMUST_FIX_COUNT: 1\nSHOULD_FIX_COUNT: 0\n",
            0,
            "h",
            NOW_ISO,
            true,
        );
        if attempt < 3 {
            match step.directive {
                Directive::RunFix { attempt: a } => assert_eq!(a, attempt + 1),
                _ => panic!("expected another fix attempt"),
            }
        } else {
            match step.directive {
                Directive::Finish { reason } => {
                    assert_eq!(reason, ExitReason::FixAttemptsExhausted);
                    assert_eq!(reason.exit_code(), EXIT_ERROR);
                    assert!(reason.is_error());
                    // The fix-phase checkpoint is deliberately left behind.
                    assert!(step.checkpoint.is_none());
                },
                _ => panic!("expected the run to abort"),
            }
        }
    }
    assert_eq!(c.stage, Stage::Finished);
}

#[test]
fn open_breaker_blocks_the_run_before_any_work() {
    let opened = Utc
        .timestamp_opt(NOW - 5 * 60, 0)
        .unwrap()
        .format("%Y-%m-%dT%H:%M:%SZ")
        .to_string();
    let breaker = CircuitBreaker::new(CircuitState::Open, 3, String::new(), opened);
    let mut c = LoopController::new(cfg(), breaker, 1, 0, 0, None, String::new());
    let step = c.begin_iteration(NOW, NOW_ISO, 5, "head");
    match step.directive {
        Directive::Finish { reason } => {
            assert_eq!(reason, ExitReason::CircuitOpen);
            assert_eq!(reason.exit_code(), EXIT_CIRCUIT_OPEN);
        },
        _ => panic!("expected the run to end without agent work"),
    }
    assert!(step.log.is_none());
    assert!(step.set_status.is_none());
}

#[test]
fn resume_at_review_skips_the_build() {
    let mut c = LoopController::new(
        cfg(),
        closed_breaker(),
        4,
        3,
        0,
        Some(Phase::Review),
        String::from("checkpoint-sha"),
    );
    let step = c.begin_iteration(NOW, NOW_ISO, 2, "current-head");
    match &step.directive {
        Directive::RunReview { baseline } => assert_eq!(baseline, "checkpoint-sha"),
        _ => panic!("a resumed review iteration must not build"),
    }
    assert_eq!(c.before_sha, "checkpoint-sha");
    assert_eq!(c.after_build_sha, "current-head");
    let cp = step.checkpoint.expect("checkpoint is re-saved");
    assert_eq!(cp.phase, Phase::Review);
    assert_eq!(cp.before_sha, "checkpoint-sha");
}

#[test]
fn resume_at_fix_also_reviews_first() {
    let mut c = LoopController::new(
        cfg(),
        closed_breaker(),
        2,
        1,
        0,
        Some(Phase::Fix),
        String::from("fix-sha"),
    );
    let step = c.begin_iteration(NOW, NOW_ISO, 2, "head");
    assert!(matches!(step.directive, Directive::RunReview { .. }));
    assert_eq!(step.checkpoint.expect("checkpoint").phase, Phase::Fix);
}

#[test]
fn all_done_completes_before_building() {
    let mut c = controller(cfg());
    let step = c.begin_iteration(NOW, NOW_ISO, 0, "head");
    match step.directive {
        Directive::Finish { reason } => {
            assert_eq!(reason, ExitReason::Complete);
            assert_eq!(reason.exit_code(), EXIT_OK);
        },
        _ => panic!("expected completion"),
    }
}

#[test]
fn task_budget_ends_resumable() {
    let mut limited = cfg();
    limited.max_tasks_per_run = 2;
    let mut c = LoopController::new(limited, closed_breaker(), 3, 0, 0, None, String::new());
    c.iterations_completed = 2;
    let step = c.begin_iteration(NOW, NOW_ISO, 5, "head");
    match step.directive {
        Directive::Finish { reason } => {
            assert_eq!(reason, ExitReason::TaskLimit);
            assert!(reason.is_resumable());
            assert_eq!(reason.label(), "TASK_LIMIT");
        },
        _ => panic!("expected the task budget to stop the run"),
    }
}

#[test]
fn loop_budget_exhaustion_and_once() {
    let mut c = LoopController::new(cfg(), closed_breaker(), 26, 0, 0, None, String::new());
    let step = c.begin_iteration(NOW, NOW_ISO, 5, "head");
    match step.directive {
        Directive::Finish { reason } => {
            assert_eq!(reason, ExitReason::MaxIterations);
            assert_eq!(reason.exit_code(), EXIT_MAX_ITERATIONS);
        },
        _ => panic!("expected the loop budget to stop the run"),
    }
    let mut once_cfg = cfg();
    once_cfg.once = true;
    once_cfg.max_loops = 1;
    let mut c = LoopController::new(once_cfg, closed_breaker(), 2, 0, 0, None, String::new());
    let step = c.begin_iteration(NOW, NOW_ISO, 5, "head");
    match step.directive {
        Directive::Finish { reason } => {
            assert_eq!(reason, ExitReason::Once);
            assert!(reason.is_resumable());
        },
        _ => panic!("expected the single cycle to stop the run"),
    }
}

#[test]
fn build_protocol_violation_aborts() {
    let mut c = controller(cfg());
    c.begin_iteration(NOW, NOW_ISO, 1, "base");
    let step = c.on_build_result("no status token here\n", 0, "after", 1, NOW_ISO, true);
    match step.directive {
        Directive::Finish { reason } => {
            assert_eq!(reason, ExitReason::ProtocolViolation);
            assert_eq!(reason.exit_code(), EXIT_ERROR);
        },
        _ => panic!("expected a protocol violation"),
    }
    let mut c = controller(cfg());
    c.begin_iteration(NOW, NOW_ISO, 1, "base");
    let step = c.on_build_result("BUILD_STATUS: SOMETHING_ELSE\n", 0, "after", 1, NOW_ISO, true);
    assert!(matches!(
        step.directive,
        Directive::Finish { reason: ExitReason::ProtocolViolation }
    ));
}

#[test]
fn no_pending_tasks_with_remaining_is_blocked() {
    let mut c = controller(cfg());
    c.begin_iteration(NOW, NOW_ISO, 2, "base");
    let step = c.on_build_result("BUILD_STATUS: NO_PENDING_TASKS\n", 0, "after", 2, NOW_ISO, true);
    match step.directive {
        Directive::Finish { reason } => {
            assert_eq!(reason, ExitReason::Blocked);
            assert_eq!(reason.exit_code(), EXIT_BLOCKED);
        },
        _ => panic!("expected blocked"),
    }
    assert_eq!(step.log.expect("log").outcome, IterationOutcome::BlockedNoPending);

    let mut c = controller(cfg());
    c.begin_iteration(NOW, NOW_ISO, 1, "base");
    let step = c.on_build_result("BUILD_STATUS: NO_PENDING_TASKS\n", 0, "after", 0, NOW_ISO, true);
    assert!(matches!(
        step.directive,
        Directive::Finish { reason: ExitReason::Complete }
    ));
    assert_eq!(step.log.expect("log").outcome, IterationOutcome::NoPending);
}

#[test]
fn blocked_promise_tag_ends_the_run() {
    let mut c = controller(cfg());
    c.begin_iteration(NOW, NOW_ISO, 1, "base");
    let step = c.on_build_result(
        "<promise>BLOCKED</promise>\nBUILD_STATUS: BLOCKED\n",
        0,
        "after",
        1,
        NOW_ISO,
        true,
    );
    assert!(matches!(
        step.directive,
        Directive::Finish { reason: ExitReason::Blocked }
    ));
    assert_eq!(step.log.expect("log").outcome, IterationOutcome::Blocked);
}

#[test]
fn skip_review_marks_in_review_and_records() {
    let mut sr = cfg();
    sr.skip_review = true;
    let mut c = LoopController::new(sr, closed_breaker(), 1, 0, 0, None, String::new());
    c.begin_iteration(NOW, NOW_ISO, 1, "base");
    let step = c.on_build_result("BUILD_STATUS: COMPLETED_TASK\n", 100, "after", 1, NOW_ISO, true);
    assert_eq!(step.set_status, Some(TaskStatus::InReview));
    assert!(matches!(step.directive, Directive::NextIteration));
    assert_eq!(step.log.expect("log").outcome, IterationOutcome::SkipReview);
    assert_eq!(c.breaker.last_commit(), "after");
}

#[test]
fn two_clean_iterations_then_complete() {
    let mut c = controller(cfg());
    for (remaining, sha) in [(2u32, "sha-1"), (1u32, "sha-2")] {
        let step = c.begin_iteration(NOW, NOW_ISO, remaining, sha);
        assert!(matches!(step.directive, Directive::RunBuild));
        let step = c.on_build_result(
            "BUILD_STATUS: COMPLETED_TASK\n",
            1_000_000,
            sha,
            remaining,
            NOW_ISO,
            true,
        );
        assert!(matches!(step.directive, Directive::RunReview { .. }));
        let step = c.on_review_result(
            "REVIEW_STATUS: PASS\nMUST_FIX_COUNT: 0\nSHOULD_FIX_COUNT: 0\n",
            500_000,
            NOW_ISO,
            true,
        );
        assert!(matches!(step.directive, Directive::NextIteration));
    }
    assert_eq!(c.iterations_completed, 2);
    assert_eq!(c.loop_index, 3);
    assert_eq!(c.total_iterations(), 2);
    assert_eq!(c.total_cost_microusd, 3_000_000);
    let step = c.begin_iteration(NOW, NOW_ISO, 0, "sha-3");
    assert!(matches!(
        step.directive,
        Directive::Finish { reason: ExitReason::Complete }
    ));
}

#[test]
fn count_fields_parse_defensively() {
    let get_count = specloop::controller::get_count;
    assert_eq!(get_count("MUST_FIX_COUNT: 7\n", "MUST_FIX_COUNT"), 7);
    assert_eq!(get_count("MUST_FIX_COUNT: +7\n", "MUST_FIX_COUNT"), 7);
    assert_eq!(get_count("MUST_FIX_COUNT: many\n", "MUST_FIX_COUNT"), 0);
    assert_eq!(get_count("MUST_FIX_COUNT: 99999999999\n", "MUST_FIX_COUNT"), 0);
    assert_eq!(get_count("nothing\n", "MUST_FIX_COUNT"), 0);
}

#[test]
fn phase_tokens_round_trip() {
    for p in [Phase::Build, Phase::Review, Phase::Fix] {
        assert_eq!(parse_phase(p.label()), Some(p));
    }
    assert_eq!(parse_phase("other"), None);
}

fn directive_name(d: &Directive) -> &'static str {
    match d {
        Directive::RunBuild => "RunBuild",
        Directive::RunReview { .. } => "RunReview",
        Directive::RunFix { .. } => "RunFix",
        Directive::NextIteration => "NextIteration",
        Directive::Finish { .. } => "Finish",
    }
}
