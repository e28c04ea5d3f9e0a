use specloop::cli::RunArgs;
use specloop::config::{
    apply_map, apply_run_args, detect_project_type, detect_test_command, detect_verify_command,
    map_get, parse_speclooprc, Config, DEFAULT_CB_COOLDOWN_MINUTES, DEFAULT_MAX_LOOPS,
};
use specloop::util::{format_cost, format_duration, slugify};

fn run_args() -> RunArgs {
    RunArgs {
        spec: None,
        max_loops: None,
        max_review_fix_loops: None,
        max_tasks: None,
        once: false,
        dry_run: false,
        skip_review: false,
        resume: false,
        verbose: false,
    }
}

#[test]
fn rc_parsing_handles_comments_quotes_and_blanks() {
    let content = "# a comment\n\nPROJECT_TYPE=\"rust\"\nMAX_LOOPS = 7\nEMPTY=\nSINGLE='x'\nNOEQ\n";
    let pairs = parse_speclooprc(content);
    assert_eq!(map_get(&pairs, "PROJECT_TYPE").as_deref(), Some("rust"));
    assert_eq!(map_get(&pairs, "MAX_LOOPS").as_deref(), Some("7"));
    assert_eq!(map_get(&pairs, "EMPTY").as_deref(), Some(""));
    assert_eq!(map_get(&pairs, "SINGLE").as_deref(), Some("x"));
    assert_eq!(map_get(&pairs, "NOEQ"), None);
    assert_eq!(map_get(&pairs, "MISSING"), None);
}

#[test]
fn rc_last_assignment_wins() {
    let pairs = parse_speclooprc("K=1\nK=2\n");
    assert_eq!(map_get(&pairs, "K").as_deref(), Some("2"));
}

#[test]
fn apply_map_merges_settings() {
    let mut cfg = Config::default();
    let pairs = parse_speclooprc(
        "PROJECT_TYPE=rust\nVERIFY_COMMAND=\"cargo check\"\nMAX_LOOPS=9\nCB_COOLDOWN_MINUTES=bad\n",
    );
    apply_map(&mut cfg, &pairs);
    assert_eq!(cfg.project_type, "rust");
    assert_eq!(cfg.verify_command, "cargo check");
    assert_eq!(cfg.max_loops, 9);
    // An unreadable number keeps the default.
    assert_eq!(cfg.cb_cooldown_minutes, DEFAULT_CB_COOLDOWN_MINUTES);
    assert_eq!(cfg.session_dir, ".spec-loop/sessions");
}

#[test]
fn run_args_override_and_once_pins_budgets() {
    let mut cfg = Config::default();
    let mut args = run_args();
    args.max_loops = Some(11);
    apply_run_args(&mut cfg, &args);
    assert_eq!(cfg.max_loops, 11);

    let mut cfg = Config::default();
    let mut args = run_args();
    args.once = true;
    args.max_loops = Some(11);
    apply_run_args(&mut cfg, &args);
    assert_eq!(cfg.max_loops, 1);
    assert_eq!(cfg.max_tasks_per_run, 1);
    assert_eq!(DEFAULT_MAX_LOOPS, 25);
}

#[test]
fn project_type_detection_order() {
    let files = |names: &[&str]| names.iter().map(|s| s.to_string()).collect::<Vec<_>>();
    assert_eq!(detect_project_type(&files(&["Cargo.toml"])), "rust");
    assert_eq!(
        detect_project_type(&files(&["Cargo.toml", "tsconfig.json"])),
        "typescript"
    );
    assert_eq!(detect_project_type(&files(&["package.json"])), "javascript");
    assert_eq!(detect_project_type(&files(&["setup.cfg"])), "python");
    assert_eq!(detect_project_type(&files(&["go.mod"])), "go");
    assert_eq!(detect_project_type(&files(&[])), "generic");
}

#[test]
fn command_detection_by_project_type() {
    assert_eq!(detect_verify_command("rust"), "cargo clippy && cargo check");
    assert_eq!(detect_test_command("rust"), "cargo test");
    assert_eq!(detect_verify_command("python"), "python -m py_compile");
    assert_eq!(detect_test_command("javascript"), "npm test");
    assert_eq!(detect_verify_command("unknown"), "");
    assert_eq!(detect_test_command("unknown"), "");
}

#[test]
fn durations_render_in_three_ranges() {
    assert_eq!(format_duration(0), "0s");
    assert_eq!(format_duration(59), "59s");
    assert_eq!(format_duration(60), "1m 0s");
    assert_eq!(format_duration(125), "2m 5s");
    assert_eq!(format_duration(3600), "1h 0m");
    assert_eq!(format_duration(3725), "1h 2m");
}

#[test]
fn costs_render_as_dollars_and_cents() {
    assert_eq!(format_cost(0), "$0.00");
    assert_eq!(format_cost(4_999), "$0.00");
    assert_eq!(format_cost(5_000), "$0.01");
    assert_eq!(format_cost(1_250_000), "$1.25");
    assert_eq!(format_cost(12_345_678), "$12.35");
    assert_eq!(format_cost(10_000_000), "$10.00");
}

#[test]
fn slugs_collapse_and_trim() {
    assert_eq!(slugify("My Spec!"), "my-spec");
    assert_eq!(slugify("  weird--name  "), "weird--name");
    assert_eq!(slugify("A  B"), "a-b");
    assert_eq!(slugify("feature_x.v2"), "feature_x.v2");
    assert_eq!(slugify("!!!"), "session");
    assert_eq!(slugify(""), "session");
    assert_eq!(slugify("--x--"), "x");
}
