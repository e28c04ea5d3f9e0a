use specloop::config::Config;
use specloop::session::{
    append_iteration_log, append_run_invocation_header, append_run_iteration_header,
    build_resume_state, finalize_session, initial_session_json, register_agent_session,
    resume_state_usable, run_log_header, session_continuation_for_spec, session_iterations_count,
    session_json_path, session_latest_for_spec, session_log_path, session_runlog_path,
    session_state_path, session_total_cost, session_total_iterations, IterationLogInput,
    SessionJson,
};

fn sample_session(spec: &str) -> SessionJson {
    let cfg = Config::default();
    initial_session_json(
        String::from("20240101_120000_demo"),
        "1.0.0",
        spec,
        "demo",
        "2024-01-01T12:00:00Z",
        &cfg,
    )
}

#[test]
fn paths_follow_the_session_layout() {
    let cfg = Config::default();
    assert_eq!(session_state_path(&cfg), ".spec-loop/sessions/.session_state.json");
    assert_eq!(session_json_path("s/dir"), "s/dir/session.json");
    assert_eq!(session_runlog_path("s/dir"), "s/dir/run.md");
    assert_eq!(session_log_path("s/dir"), "s/dir/session.md");
}

#[test]
fn run_log_header_text() {
    let h = run_log_header("demo", ".agents/specs/demo", "2024-01-01 12:00:00");
    assert_eq!(
        h,
        "# Run Log\n\n- Spec: demo\n- Spec path: .agents/specs/demo\n- Started: 2024-01-01 12:00:00\n\n---\n"
    );
}

#[test]
fn invocation_header_appends_and_renders() {
    let mut data = sample_session("spec-a");
    let text = append_run_invocation_header(
        &mut data,
        "20240101_120000_demo",
        "new",
        false,
        0,
        25,
        false,
        "2024-01-01T12:00:00Z",
        "2024-01-01 12:00:00",
    );
    assert!(text.contains("## Invocation — 2024-01-01 12:00:00"));
    assert!(text.contains("- Mode: new"));
    assert!(text.contains("once=false, max_tasks=0, max_loops=25, skip_review=false"));
    assert_eq!(data.invocations.len(), 1);
    assert_eq!(data.invocations[0].mode, "new");
    assert!(data.invocations[0].agent_session_ids.is_empty());
}

#[test]
fn iteration_header_with_and_without_task() {
    let with = append_run_iteration_header(3, Some("Add parser"), "2024-01-01 12:00:00");
    assert_eq!(with, "\n## Iteration 3 — 2024-01-01 12:00:00\n- Task: Add parser\n\n");
    let without = append_run_iteration_header(3, Some(""), "2024-01-01 12:00:00");
    assert_eq!(without, "\n## Iteration 3 — 2024-01-01 12:00:00\n\n");
}

#[test]
fn register_agent_session_deduplicates() {
    let mut data = sample_session("spec-a");
    append_run_invocation_header(
        &mut data, "id", "new", false, 0, 25, false, "t", "h",
    );
    register_agent_session(&mut data, "  abc  ");
    register_agent_session(&mut data, "abc");
    register_agent_session(&mut data, "");
    register_agent_session(&mut data, "def");
    assert_eq!(data.agent_sessions, vec!["abc", "def"]);
    assert_eq!(data.invocations[0].agent_session_ids, vec!["abc", "def"]);
}

#[test]
fn iteration_log_appends_and_renders() {
    let mut data = sample_session("spec-a");
    let input = IterationLogInput {
        index: 2,
        task_name: String::from("Add parser"),
        outcome: String::from("pass"),
        duration_seconds: 65,
        cost_microusd: 1_250_000,
        must_fix_count: 0,
        should_fix_count: 1,
        commit_sha: String::from("abcdef0123456789"),
    };
    let text = append_iteration_log(&mut data, &input, "2024-01-01 12:05:00", "2024-01-01T12:05:00Z");
    assert_eq!(
        text,
        "## Iteration 2 — 2024-01-01 12:05:00\n- Task: Add parser\n- Outcome: pass\n- Duration: 1m 5s\n- Cost: $1.25\n- Must-fix: 0\n- Should-fix: 1\n- Commit: abcdef0\n\n"
    );
    assert_eq!(data.iterations.len(), 1);
    assert_eq!(data.iterations[0].timestamp, "2024-01-01T12:05:00Z");
    assert_eq!(session_iterations_count(&data), 1);
    assert_eq!(session_total_iterations(&data), 1);
}

#[test]
fn finalize_stamps_the_terminal_fields() {
    let mut data = sample_session("spec-a");
    finalize_session(&mut data, "2024-01-01T13:00:00Z", 2_000, 1_000, 42, "COMPLETE", 7);
    assert_eq!(data.ended_at.as_deref(), Some("2024-01-01T13:00:00Z"));
    assert_eq!(data.duration_seconds, Some(1_000));
    assert_eq!(data.total_cost_microusd, Some(42));
    assert_eq!(data.exit_reason.as_deref(), Some("COMPLETE"));
    assert_eq!(data.total_iterations, Some(7));
    assert_eq!(session_total_cost(&data), 42);
    assert_eq!(session_total_iterations(&data), 7);
}

#[test]
fn finalize_clamps_negative_durations() {
    let mut data = sample_session("spec-a");
    finalize_session(&mut data, "t", 100, 500, 0, "ONCE", 0);
    assert_eq!(data.duration_seconds, Some(0));
}

#[test]
fn latest_and_continuation_selection() {
    let mut ended_once = sample_session("spec-a");
    finalize_session(&mut ended_once, "t", 10, 0, 0, "ONCE", 1);
    let mut ended_complete = sample_session("spec-a");
    finalize_session(&mut ended_complete, "t", 10, 0, 0, "COMPLETE", 1);
    let other = sample_session("spec-b");

    let sessions = vec![
        (String::from("s/2"), other),
        (String::from("s/1"), ended_once),
        (String::from("s/0"), ended_complete),
    ];
    assert_eq!(session_latest_for_spec(&sessions, "spec-a"), Some(1));
    assert_eq!(session_continuation_for_spec(&sessions, "spec-a"), Some(1));
    assert_eq!(session_latest_for_spec(&sessions, "spec-c"), None);
    assert_eq!(session_continuation_for_spec(&sessions, "spec-c"), None);

    let sessions2 = vec![(String::from("s/0"), {
        let mut d = sample_session("spec-a");
        finalize_session(&mut d, "t", 10, 0, 0, "COMPLETE", 1);
        d
    })];
    assert_eq!(session_continuation_for_spec(&sessions2, "spec-a"), None);
}

#[test]
fn run_phase_fragment_renders_all_sections() {
    let text = specloop::session::append_run_phase(
        "Build",
        "COMPLETED_TASK",
        500_000,
        65_000,
        "output body",
        "prompt body\n",
        "sess-1",
    );
    assert_eq!(
        text,
        "### Build\n- Status: COMPLETED_TASK\n- Duration: 1m 5s\n- Cost: $0.50\n- Agent Session: sess-1\n\n#### Prompt\n\nprompt body\n\n#### Output\n\noutput body\n\n"
    );
    let bare = specloop::session::append_run_phase("Fix", "applied", 0, 0, "out\n", "", " ");
    assert_eq!(bare, "### Fix\n- Status: applied\n- Duration: 0s\n- Cost: $0.00\n\n#### Output\n\nout\n\n");
}

#[test]
fn resume_state_round_trip_and_validity() {
    let st = build_resume_state("specs/demo", 4, "sessions/x", "review", "sha", "t");
    assert_eq!(st.spec_dir, "specs/demo");
    assert_eq!(st.loop_index, 4);
    assert_eq!(st.phase, "review");
    assert!(resume_state_usable(&st, true));
    assert!(!resume_state_usable(&st, false));
    let empty = build_resume_state("", 1, "s", "build", "", "t");
    assert!(!resume_state_usable(&empty, true));
}
