use specloop::status::TaskStatus;
use specloop::tracker::{
    count_active, count_remaining, count_status, count_total, find_next_task, find_open_task,
    get_spec_name, get_task_status, resolve_spec_choice, set_task_status, status_signature,
    task_title, SpecDirChoice,
};

#[test]
fn status_tokens_round_trip() {
    for st in [
        TaskStatus::Pending,
        TaskStatus::InProgress,
        TaskStatus::InReview,
        TaskStatus::Done,
        TaskStatus::Blocked,
        TaskStatus::Unknown,
    ] {
        assert_eq!(TaskStatus::from_str(st.as_str()), st);
    }
    assert_eq!(TaskStatus::from_str("  PENDING  "), TaskStatus::Pending);
    assert_eq!(TaskStatus::from_str("In-Review"), TaskStatus::InReview);
    assert_eq!(TaskStatus::from_str("something"), TaskStatus::Unknown);
    assert_eq!(TaskStatus::from_str(""), TaskStatus::Unknown);
}

#[test]
fn reads_first_marker_line() {
    let doc = "# Task one\n\n> Status: pending\n\nBody text\n";
    assert_eq!(get_task_status(doc), TaskStatus::Pending);
}

#[test]
fn reads_marker_without_blockquote_and_case() {
    assert_eq!(get_task_status("Status: DONE\n"), TaskStatus::Done);
    assert_eq!(get_task_status("   >   Status:   in-progress   \n"), TaskStatus::InProgress);
}

#[test]
fn bare_label_is_skipped_for_reading() {
    let doc = "> Status:\n> Status: blocked\n";
    assert_eq!(get_task_status(doc), TaskStatus::Blocked);
}

#[test]
fn missing_marker_reads_unknown() {
    assert_eq!(get_task_status("# Title\n\nNo marker here.\n"), TaskStatus::Unknown);
    assert_eq!(get_task_status(""), TaskStatus::Unknown);
}

#[test]
fn first_marker_wins() {
    let doc = "> Status: pending\n> Status: done\n";
    assert_eq!(get_task_status(doc), TaskStatus::Pending);
}

#[test]
fn rewrite_replaces_first_marker_and_keeps_rest() {
    let doc = "# Task\n\n> Status: pending\n\nBody stays.\n";
    let out = set_task_status(doc, TaskStatus::InReview);
    assert_eq!(out, "# Task\n\n> Status: in-review\n\nBody stays.\n");
}

#[test]
fn rewrite_appends_when_marker_missing() {
    let doc = "# Task\n\nBody.\n";
    let out = set_task_status(doc, TaskStatus::Done);
    assert_eq!(out, "# Task\n\nBody.\n\n> Status: done\n");
}

#[test]
fn rewrite_on_empty_document() {
    let out = set_task_status("", TaskStatus::Pending);
    assert_eq!(out, "\n> Status: pending\n");
}

#[test]
fn rewrite_replaces_only_the_first_marker() {
    let doc = "Status: pending\nStatus: pending\n";
    let out = set_task_status(doc, TaskStatus::Done);
    assert_eq!(out, "> Status: done\nStatus: pending\n");
}

#[test]
fn rewrite_is_idempotent() {
    let docs = [
        "# Task\n\n> Status: pending\n\nBody.\n",
        "# Task without marker\n",
        "",
        "No trailing newline",
        "> Status:\n",
    ];
    for doc in docs {
        let once = set_task_status(doc, TaskStatus::InReview);
        let twice = set_task_status(&once, TaskStatus::InReview);
        assert_eq!(once, twice);
    }
}

#[test]
fn rewrite_normalises_crlf_line_endings() {
    let doc = "# Task\r\n> Status: pending\r\nBody\r\n";
    let out = set_task_status(doc, TaskStatus::Done);
    assert_eq!(out, "# Task\n> Status: done\nBody\n");
}

#[test]
fn counts_and_selection() {
    let statuses = vec![
        TaskStatus::Done,
        TaskStatus::Pending,
        TaskStatus::InReview,
        TaskStatus::Blocked,
        TaskStatus::Pending,
    ];
    assert_eq!(count_total(&statuses), 5);
    assert_eq!(count_status(&statuses, TaskStatus::Pending), 2);
    assert_eq!(count_status(&statuses, TaskStatus::Done), 1);
    assert_eq!(count_remaining(&statuses), 4);
    assert_eq!(count_active(&statuses), 3);
    assert_eq!(find_next_task(&statuses), Some(1));
    assert_eq!(find_open_task(&statuses), Some(1));
}

#[test]
fn selection_falls_back_to_open_tasks() {
    let statuses = vec![TaskStatus::Done, TaskStatus::InReview];
    assert_eq!(find_next_task(&statuses), None);
    assert_eq!(find_open_task(&statuses), Some(1));
    let done = vec![TaskStatus::Done];
    assert_eq!(find_open_task(&done), None);
}

#[test]
fn signature_lists_name_and_status() {
    let names = vec![String::from("01-a.md"), String::from("02-b.md")];
    let statuses = vec![TaskStatus::Done, TaskStatus::Pending];
    assert_eq!(status_signature(&names, &statuses), "01-a.md:done;02-b.md:pending;");
}

#[test]
fn task_title_reads_first_heading() {
    assert_eq!(
        task_title("# Add parser \n\nBody\n").as_deref(),
        Some("Add parser")
    );
    assert_eq!(
        task_title("prose\n# Second line title\n").as_deref(),
        Some("Second line title")
    );
    assert_eq!(task_title("no heading\n"), None);
    assert_eq!(task_title("#not-a-heading\n"), None);
}

#[test]
fn spec_dir_resolution_rules() {
    assert_eq!(
        resolve_spec_choice(&vec![0, 2, 0]),
        SpecDirChoice::OnlyActive { index: 1 }
    );
    assert_eq!(resolve_spec_choice(&vec![1, 0, 3]), SpecDirChoice::MultipleActive);
    assert_eq!(resolve_spec_choice(&vec![0]), SpecDirChoice::SoleCandidate);
    assert_eq!(resolve_spec_choice(&vec![0, 0]), SpecDirChoice::NoneEligible);
    assert_eq!(resolve_spec_choice(&vec![]), SpecDirChoice::NoneEligible);
}

#[test]
fn spec_name_is_last_segment() {
    assert_eq!(get_spec_name(".agents/specs/feature-x"), "feature-x");
    assert_eq!(get_spec_name("feature-x"), "feature-x");
    assert_eq!(get_spec_name(".agents/specs/feature-x/"), "feature-x");
    assert_eq!(get_spec_name(""), "unknown-spec");
    assert_eq!(get_spec_name("///"), "unknown-spec");
}
