use specloop::config::Config;
use specloop::prompts::{build_prompt, fix_prompt, review_prompt};
use specloop::ui::Ui;

fn cfg_with_commands() -> Config {
    let mut cfg = Config::default();
    cfg.verify_command = String::from("cargo check");
    cfg.test_command = String::from("cargo test");
    cfg
}

#[test]
fn build_prompt_names_the_spec_and_the_contract() {
    let cfg = cfg_with_commands();
    let p = build_prompt(".agents/specs/demo", &cfg, true);
    assert!(p.starts_with("You are implementing exactly ONE pending task"));
    assert!(p.contains("## Spec\n\n.agents/specs/demo\n"));
    assert!(p.contains("tasks in .agents/specs/demo/tasks/."));
    assert!(p.contains("Read and follow AGENTS.md"));
    assert!(p.contains("- Run the verify command before finishing: `cargo check`"));
    assert!(p.contains("- Run tests before finishing: `cargo test`"));
    assert!(p.ends_with("The final BUILD_STATUS line must be the last line of the response\n"));
}

#[test]
fn build_prompt_omits_empty_sections() {
    let cfg = Config::default();
    let p = build_prompt("demo", &cfg, false);
    assert!(!p.contains("AGENTS.md in the project root"));
    assert!(!p.contains("verify command before finishing"));
    assert!(p.contains("4. Run verification and tests.\n\n\n5. Update"));
}

#[test]
fn review_prompt_scopes_to_the_baseline() {
    let cfg = Config::default();
    let p = review_prompt("demo", &cfg, Some("abc123"));
    assert!(p.contains("Review ONLY this range: `git diff abc123..HEAD`."));
    let p2 = review_prompt("demo", &cfg, None);
    assert!(p2.contains("`git diff main...HEAD` or `git diff --staged`"));
    let p3 = review_prompt("demo", &cfg, Some(""));
    assert!(p3.contains("`git diff main...HEAD` or `git diff --staged`"));
    assert!(p.ends_with("The SUGGESTION_COUNT line must be the last line of the response\n"));
}

#[test]
fn fix_prompt_carries_the_findings() {
    let cfg = cfg_with_commands();
    let p = fix_prompt("demo", &cfg, "MUST: rename the thing");
    assert!(p.contains("## Findings to fix\n\nMUST: rename the thing\n"));
    assert!(p.contains("- Re-run verify command: `cargo check`"));
    assert!(p.contains("- Re-run tests: `cargo test`"));
    assert!(p.contains("BUILD_STATUS: FIXES_APPLIED"));
}

#[test]
fn styling_is_a_no_op_without_colour() {
    let ui = Ui::new(false, false);
    assert_eq!(ui.dim("hello"), "hello");
    assert_eq!(ui.bold("hello"), "hello");
}

#[test]
fn styling_wraps_with_ansi_codes() {
    let ui = Ui::new(true, false);
    assert_eq!(ui.dim("x"), "\u{1b}[2mx\u{1b}[0m");
    assert_eq!(ui.bold("x"), "\u{1b}[1mx\u{1b}[0m");
}

#[test]
fn symbols_respect_the_unicode_switch() {
    let plain = Ui::new(false, false);
    assert_eq!(plain.diamond(), "+");
    assert_eq!(plain.arrow(), "->");
    let fancy = Ui::new(false, true);
    assert_eq!(fancy.diamond(), "\u{25c6}");
    assert_eq!(fancy.arrow(), "\u{2192}");
}

#[test]
fn step_lines_carry_symbol_and_message() {
    let ui = Ui::new(false, false);
    assert_eq!(ui.step_info("hello"), "      -> hello");
    assert_eq!(ui.step_ok("done"), "      [OK] done");
    assert_eq!(ui.step_warn("careful"), "      [WARN] careful");
    assert_eq!(ui.step_error("bad"), "      [FAIL] bad");
}

#[test]
fn progress_bar_renders_counts() {
    let ui = Ui::new(false, false);
    assert_eq!(ui.progress_bar(2, 10, 10, "done"), "##........ 2/10 done");
    assert_eq!(ui.progress_bar(0, 0, 10, "done"), "0/0 done");
    assert_eq!(ui.progress_bar(10, 10, 4, "done"), "#### 10/10 done");
}

#[test]
fn boxes_frame_their_content() {
    let ui = Ui::new(false, false);
    assert_eq!(ui.box_header("Spec", 12), "  +- Spec ---+");
    assert_eq!(ui.box_line("  hi", 12), "  |  hi      |");
    assert_eq!(ui.box_empty(12), "  |          |");
    assert_eq!(ui.box_footer(12), "  +----------+");
    assert_eq!(ui.separator("Iteration 1", 20), "  -- Iteration 1 ----");
}
