use specloop::agent::{has_tag, parse_kv, parse_stream, simulate, StreamEvent};

#[test]
fn parse_kv_reads_a_direct_status_line() {
    let out = "Some preamble\nBUILD_STATUS: COMPLETED_TASK\n";
    assert_eq!(parse_kv(out, "BUILD_STATUS").as_deref(), Some("COMPLETED_TASK"));
}

#[test]
fn parse_kv_trims_around_key_and_value() {
    let out = "   REVIEW_STATUS:   PASS   \n";
    assert_eq!(parse_kv(out, "REVIEW_STATUS").as_deref(), Some("PASS"));
}

#[test]
fn parse_kv_first_direct_line_wins() {
    let out = "MUST_FIX_COUNT: 2\nMUST_FIX_COUNT: 5\n";
    assert_eq!(parse_kv(out, "MUST_FIX_COUNT").as_deref(), Some("2"));
}

#[test]
fn parse_kv_falls_back_to_embedded_occurrence() {
    let out = "The final verdict was REVIEW_STATUS: FAIL today\n";
    assert_eq!(parse_kv(out, "REVIEW_STATUS").as_deref(), Some("FAIL"));
}

#[test]
fn parse_kv_embedded_takes_first_token_only() {
    let out = "note BUILD_STATUS: BLOCKED because of reasons\n";
    assert_eq!(parse_kv(out, "BUILD_STATUS").as_deref(), Some("BLOCKED"));
}

#[test]
fn parse_kv_missing_key_is_none() {
    assert_eq!(parse_kv("nothing here\n", "BUILD_STATUS"), None);
    assert_eq!(parse_kv("BUILD_STATUS:\n", "BUILD_STATUS").as_deref(), Some(""));
}

#[test]
fn has_tag_matches_exact_promise() {
    let out = "work done\n<promise>COMPLETE</promise>\nBUILD_STATUS: COMPLETED_TASK\n";
    assert!(has_tag(out, "COMPLETE"));
    assert!(!has_tag(out, "BLOCKED"));
    assert!(!has_tag("<promise>COMPLETE</other>", "COMPLETE"));
}

#[test]
fn parse_stream_takes_result_fields() {
    let lines = vec![String::from("line one"), String::from("line two")];
    let events = vec![
        StreamEvent::SystemInit { session_id: Some(String::from("sess-1")) },
        StreamEvent::Other,
        StreamEvent::ResultSummary {
            session_id: Some(String::from("sess-2")),
            result_text: Some(String::from("BUILD_STATUS: COMPLETED_TASK")),
            cost_microusd: Some(1_234_000),
            duration_ms: Some(9000),
        },
    ];
    let r = parse_stream(&lines, &events);
    assert_eq!(r.agent_session_id, "sess-1");
    assert_eq!(r.output_text, "BUILD_STATUS: COMPLETED_TASK");
    assert_eq!(r.cost_microusd, 1_234_000);
    assert_eq!(r.duration_ms, 9000);
}

#[test]
fn parse_stream_result_names_session_when_init_missing() {
    let lines: Vec<String> = Vec::new();
    let events = vec![StreamEvent::ResultSummary {
        session_id: Some(String::from("sess-9")),
        result_text: Some(String::from("x")),
        cost_microusd: None,
        duration_ms: None,
    }];
    let r = parse_stream(&lines, &events);
    assert_eq!(r.agent_session_id, "sess-9");
    assert_eq!(r.cost_microusd, 0);
}

#[test]
fn parse_stream_joins_lines_without_result_text() {
    let lines = vec![String::from("a"), String::from("b")];
    let events = vec![StreamEvent::Other];
    let r = parse_stream(&lines, &events);
    assert_eq!(r.output_text, "a\nb");
}

#[test]
fn simulate_answers_by_prompt_shape() {
    let review = simulate("You are reviewing completed work independently. ...");
    assert_eq!(
        review.output_text,
        "REVIEW_STATUS: PASS\nMUST_FIX_COUNT: 0\nSHOULD_FIX_COUNT: 0\nSUGGESTION_COUNT: 0"
    );
    let fix = simulate("fixing a failed review of things");
    assert_eq!(fix.output_text, "BUILD_STATUS: FIXES_APPLIED");
    let build = simulate("implement the next task");
    assert_eq!(build.output_text, "BUILD_STATUS: COMPLETED_TASK");
    assert_eq!(build.cost_microusd, 0);
    assert_eq!(build.agent_session_id, "dry-run-session");
}
