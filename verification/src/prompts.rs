//! The three prompts the loop sends the external agent, built exactly:
//! the build prompt that implements one task, the review prompt scoped to
//! a diff baseline, and the fix prompt carrying review findings.

use vstd::prelude::*;
use vstd::string::*;
use crate::config::Config;

verus! {

/// The build prompt for one pending task.
pub open spec fn spec_build_prompt(
    spec_dir: Seq<char>,
    verify_command: Seq<char>,
    test_command: Seq<char>,
    agents_md_exists: bool,
) -> Seq<char> {
    let verify_section = if verify_command.len() == 0 {
        Seq::<char>::empty()
    } else {
        "- Run the verify command before finishing: `"@ + verify_command + "`"@
    };
    let test_section = if test_command.len() == 0 {
        Seq::<char>::empty()
    } else {
        "- Run tests before finishing: `"@ + test_command + "`"@
    };
    let agents_context = if agents_md_exists {
        "\n## Project Rules\n\nRead and follow AGENTS.md in the project root."@
    } else {
        Seq::<char>::empty()
    };
    "You are implementing exactly ONE pending task from a feature spec.\n\n## Spec\n\n"@ + spec_dir
        + "\n\nRead the description and progress notes (if present), and tasks in "@ + spec_dir + "/tasks/."@
        + agents_context
        + "\n\n## Workflow\n\n1. Identify the next eligible task (status `pending`, dependencies met).\n2. Claim it by setting task status: `pending -> in-progress`.\n3. Implement only the requested task scope (no unrelated refactors).\n4. Run verification and tests.\n"@
        + verify_section + "\n"@ + test_section
        + "\n5. Update task documentation:\n   - Fill **Done** checklist with specific evidence\n   - Add concrete command output notes\n   - Set status to `in-review` (not `done`)\n6. Append one entry to progress.md if present.\n7. If git is available, commit code changes with a specific message.\n   - Use `git add <specific files>` only\n   - Never stage spec files or progress.md\n\n## Constraints\n\n- Complete one task or report BLOCKED.\n- Keep response concise and factual.\n- Never mark a task `done` during build; review pass controls final completion.\n\n## CRITICAL OUTPUT CONTRACT\n\nOutput EXACTLY one final status line as the very last line:\n\nBUILD_STATUS: COMPLETED_TASK\nBUILD_STATUS: BLOCKED\nBUILD_STATUS: NO_PENDING_TASKS\n\nOptional promise tags:\n- If all tasks are complete: `<promise>COMPLETE</promise>` before final status\n- If blocked: `<promise>BLOCKED</promise>` before final status\n\nFormatting rules:\n- Status lines must be plain text (not in code blocks, not indented, no backticks)\n- The final BUILD_STATUS line must be the last line of the response\n"@
}

/// Builds the build prompt.
pub fn build_prompt(spec_dir: &str, cfg: &Config, agents_md_exists: bool) -> (r: String)
    ensures
        r@ == spec_build_prompt(
            spec_dir@,
            cfg.verify_command@,
            cfg.test_command@,
            agents_md_exists,
        ),
{
    let mut r = String::from_str(
        "You are implementing exactly ONE pending task from a feature spec.\n\n## Spec\n\n",
    );
    r.append(spec_dir);
    r.append("\n\nRead the description and progress notes (if present), and tasks in ");
    r.append(spec_dir);
    r.append("/tasks/.");
    if agents_md_exists {
        r.append("\n## Project Rules\n\nRead and follow AGENTS.md in the project root.");
    }
    r.append(
        "\n\n## Workflow\n\n1. Identify the next eligible task (status `pending`, dependencies met).\n2. Claim it by setting task status: `pending -> in-progress`.\n3. Implement only the requested task scope (no unrelated refactors).\n4. Run verification and tests.\n",
    );
    if !cfg.verify_command.as_str().is_empty() {
        r.append("- Run the verify command before finishing: `");
        r.append(cfg.verify_command.as_str());
        r.append("`");
    }
    r.append("\n");
    if !cfg.test_command.as_str().is_empty() {
        r.append("- Run tests before finishing: `");
        r.append(cfg.test_command.as_str());
        r.append("`");
    }
    r.append(
        "\n5. Update task documentation:\n   - Fill **Done** checklist with specific evidence\n   - Add concrete command output notes\n   - Set status to `in-review` (not `done`)\n6. Append one entry to progress.md if present.\n7. If git is available, commit code changes with a specific message.\n   - Use `git add <specific files>` only\n   - Never stage spec files or progress.md\n\n## Constraints\n\n- Complete one task or report BLOCKED.\n- Keep response concise and factual.\n- Never mark a task `done` during build; review pass controls final completion.\n\n## CRITICAL OUTPUT CONTRACT\n\nOutput EXACTLY one final status line as the very last line:\n\nBUILD_STATUS: COMPLETED_TASK\nBUILD_STATUS: BLOCKED\nBUILD_STATUS: NO_PENDING_TASKS\n\nOptional promise tags:\n- If all tasks are complete: `<promise>COMPLETE</promise>` before final status\n- If blocked: `<promise>BLOCKED</promise>` before final status\n\nFormatting rules:\n- Status lines must be plain text (not in code blocks, not indented, no backticks)\n- The final BUILD_STATUS line must be the last line of the response\n",
    );
    proof {
        assert(r@ =~= spec_build_prompt(
            spec_dir@,
            cfg.verify_command@,
            cfg.test_command@,
            agents_md_exists,
        ));
    }
    r
}

/// The review prompt, scoped to the diff since `before_sha` when one is
/// known.
pub open spec fn spec_review_prompt(
    spec_dir: Seq<char>,
    verify_command: Seq<char>,
    test_command: Seq<char>,
    before_sha: Option<Seq<char>>,
) -> Seq<char> {
    let diff_instruction = match before_sha {
        Some(sha) => {
            if sha.len() > 0 {
                "Review ONLY this range: `git diff "@ + sha + "..HEAD`."@
            } else {
                "Review latest changes using `git diff main...HEAD` or `git diff --staged`."@
            }
        },
        None => "Review latest changes using `git diff main...HEAD` or `git diff --staged`."@,
    };
    let verify_section = if verify_command.len() == 0 {
        Seq::<char>::empty()
    } else {
        "- Run verify command: `"@ + verify_command + "`"@
    };
    let test_section = if test_command.len() == 0 {
        Seq::<char>::empty()
    } else {
        "- Run test command: `"@ + test_command + "`"@
    };
    "You are reviewing completed work independently. Verify, do not trust claims.\n\n## Scope\n\n"@
        + diff_instruction + "\nSpec: "@ + spec_dir
        + "\n\n## Checks\n\n- Project conventions from AGENTS.md (if present)\n- Task completeness and acceptance evidence\n- No debug leftovers or commented-out code\n- Reasonable structure and error handling\n- Test evidence for meaningful logic changes\n"@
        + verify_section + "\n"@ + test_section
        + "\n\nIf verify/test commands fail, treat as must-fix.\n\n## Report format\n\nReport:\n- Must fix\n- Should fix\n- Suggestions\n\nThen output the following 4 lines as the final lines:\n\nREVIEW_STATUS: PASS\nMUST_FIX_COUNT: 0\nSHOULD_FIX_COUNT: 0\nSUGGESTION_COUNT: 0\n\nUse FAIL with real counts when issues exist.\nIf blocked, output `<promise>BLOCKED</promise>` before the status lines.\n\nFormatting rules:\n- Status lines must be plain text (not in code blocks, not indented, no backticks)\n- The SUGGESTION_COUNT line must be the last line of the response\n"@
}

/// Builds the review prompt.
pub fn review_prompt(spec_dir: &str, cfg: &Config, before_sha: Option<&str>) -> (r: String)
    ensures
        r@ == spec_review_prompt(
            spec_dir@,
            cfg.verify_command@,
            cfg.test_command@,
            match before_sha {
                Some(s) => Some(s@),
                None => None,
            },
        ),
{
    let mut r = String::from_str(
        "You are reviewing completed work independently. Verify, do not trust claims.\n\n## Scope\n\n",
    );
    let mut scoped = false;
    match before_sha {
        Some(sha) => {
            if !sha.is_empty() {
                r.append("Review ONLY this range: `git diff ");
                r.append(sha);
                r.append("..HEAD`.");
                scoped = true;
            }
        },
        None => {},
    }
    if !scoped {
        r.append("Review latest changes using `git diff main...HEAD` or `git diff --staged`.");
    }
    r.append("\nSpec: ");
    r.append(spec_dir);
    r.append(
        "\n\n## Checks\n\n- Project conventions from AGENTS.md (if present)\n- Task completeness and acceptance evidence\n- No debug leftovers or commented-out code\n- Reasonable structure and error handling\n- Test evidence for meaningful logic changes\n",
    );
    if !cfg.verify_command.as_str().is_empty() {
        r.append("- Run verify command: `");
        r.append(cfg.verify_command.as_str());
        r.append("`");
    }
    r.append("\n");
    if !cfg.test_command.as_str().is_empty() {
        r.append("- Run test command: `");
        r.append(cfg.test_command.as_str());
        r.append("`");
    }
    r.append(
        "\n\nIf verify/test commands fail, treat as must-fix.\n\n## Report format\n\nReport:\n- Must fix\n- Should fix\n- Suggestions\n\nThen output the following 4 lines as the final lines:\n\nREVIEW_STATUS: PASS\nMUST_FIX_COUNT: 0\nSHOULD_FIX_COUNT: 0\nSUGGESTION_COUNT: 0\n\nUse FAIL with real counts when issues exist.\nIf blocked, output `<promise>BLOCKED</promise>` before the status lines.\n\nFormatting rules:\n- Status lines must be plain text (not in code blocks, not indented, no backticks)\n- The SUGGESTION_COUNT line must be the last line of the response\n",
    );
    proof {
        assert(r@ =~= spec_review_prompt(
            spec_dir@,
            cfg.verify_command@,
            cfg.test_command@,
            match before_sha {
                Some(s) => Some(s@),
                None => None,
            },
        ));
    }
    r
}

/// The fix prompt carrying the findings of a failed review.
pub open spec fn spec_fix_prompt(
    spec_dir: Seq<char>,
    verify_command: Seq<char>,
    test_command: Seq<char>,
    review_excerpt: Seq<char>,
) -> Seq<char> {
    let verify_section = if verify_command.len() == 0 {
        Seq::<char>::empty()
    } else {
        "- Re-run verify command: `"@ + verify_command + "`"@
    };
    let test_section = if test_command.len() == 0 {
        Seq::<char>::empty()
    } else {
        "- Re-run tests: `"@ + test_command + "`"@
    };
    "You are fixing review findings from a failed review.\n\n## Spec\n\n"@ + spec_dir
        + "\n\n## Findings to fix\n\n"@ + review_excerpt
        + "\n\n## Workflow\n\n1. Fix all must-fix items.\n2. Fix all should-fix items.\n3. Keep scope narrow (no unrelated refactors).\n4. Re-run verification.\n"@
        + verify_section + "\n"@ + test_section
        + "\n5. If git is available, commit changes with explicit file staging only.\n\n## CRITICAL OUTPUT CONTRACT\n\nOutput one final status line as the very last line:\n\nBUILD_STATUS: FIXES_APPLIED\nBUILD_STATUS: BLOCKED\n\nIf blocked, output `<promise>BLOCKED</promise>` before final status.\n\nFormatting rules:\n- Status lines must be plain text (not in code blocks, not indented, no backticks)\n- The final BUILD_STATUS line must be the last line of the response\n"@
}

/// Builds the fix prompt.
pub fn fix_prompt(spec_dir: &str, cfg: &Config, review_excerpt: &str) -> (r: String)
    ensures
        r@ == spec_fix_prompt(spec_dir@, cfg.verify_command@, cfg.test_command@, review_excerpt@),
{
    let mut r = String::from_str(
        "You are fixing review findings from a failed review.\n\n## Spec\n\n",
    );
    r.append(spec_dir);
    r.append("\n\n## Findings to fix\n\n");
    r.append(review_excerpt);
    r.append(
        "\n\n## Workflow\n\n1. Fix all must-fix items.\n2. Fix all should-fix items.\n3. Keep scope narrow (no unrelated refactors).\n4. Re-run verification.\n",
    );
    if !cfg.verify_command.as_str().is_empty() {
        r.append("- Re-run verify command: `");
        r.append(cfg.verify_command.as_str());
        r.append("`");
    }
    r.append("\n");
    if !cfg.test_command.as_str().is_empty() {
        r.append("- Re-run tests: `");
        r.append(cfg.test_command.as_str());
        r.append("`");
    }
    r.append(
        "\n5. If git is available, commit changes with explicit file staging only.\n\n## CRITICAL OUTPUT CONTRACT\n\nOutput one final status line as the very last line:\n\nBUILD_STATUS: FIXES_APPLIED\nBUILD_STATUS: BLOCKED\n\nIf blocked, output `<promise>BLOCKED</promise>` before final status.\n\nFormatting rules:\n- Status lines must be plain text (not in code blocks, not indented, no backticks)\n- The final BUILD_STATUS line must be the last line of the response\n",
    );
    proof {
        assert(r@ =~= spec_fix_prompt(
            spec_dir@,
            cfg.verify_command@,
            cfg.test_command@,
            review_excerpt@,
        ));
    }
    r
}

} // verus!
