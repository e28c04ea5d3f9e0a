//! The session store's data model and its pure transforms: the session
//! record, the run-log fragments appended to it, the resume checkpoint,
//! and the queries a continuation decides by.
//!
//! The caller reads and writes the files; every change of content is
//! computed and specified here. Costs are micro-dollars.

use vstd::prelude::*;
use vstd::string::*;
use crate::config::Config;
use crate::text::{spec_dec, spec_trim, trim_str, u64_to_dec};
use crate::util::{
    bool_str, format_cost, format_duration, spec_bool_str, spec_format_cost, spec_format_duration,
};

verus! {

/// One task attempt, as the session records it.
pub struct SessionIteration {
    pub index: u32,
    pub task: String,
    pub outcome: String,
    pub duration_seconds: u64,
    pub cost_microusd: u64,
    pub must_fix_count: u32,
    pub should_fix_count: u32,
    pub commit: String,
    pub timestamp: String,
}

/// One command-line invocation of the loop against a session.
pub struct SessionInvocation {
    pub started_at: String,
    pub mode: String,
    pub once: bool,
    pub max_tasks: u32,
    pub max_loops: u32,
    pub skip_review: bool,
    pub agent_session_ids: Vec<String>,
}

/// The durable record of one run family against one specification.
pub struct SessionJson {
    pub session_id: String,
    pub version: String,
    pub spec: String,
    pub spec_name: String,
    pub started_at: String,
    pub max_loops: u32,
    pub max_review_fix_loops: u32,
    pub max_tasks_per_run: u32,
    pub agent_sessions: Vec<String>,
    pub invocations: Vec<SessionInvocation>,
    pub iterations: Vec<SessionIteration>,
    pub ended_at: Option<String>,
    pub duration_seconds: Option<u64>,
    pub total_cost_microusd: Option<u64>,
    pub exit_reason: Option<String>,
    pub total_iterations: Option<u32>,
}

/// The singleton resume checkpoint.
pub struct ResumeState {
    pub spec_dir: String,
    pub loop_index: u32,
    pub session_path: String,
    pub phase: String,
    pub before_sha: String,
    pub saved_at: String,
}

/// Where the resume checkpoint lives under the session root.
pub fn session_state_path(cfg: &Config) -> (r: String)
    ensures
        r@ == cfg.session_dir@ + "/.session_state.json"@,
{
    let mut r = cfg.session_dir.clone();
    r.append("/.session_state.json");
    r
}

/// The session record file of a session directory.
pub fn session_json_path(session_path: &str) -> (r: String)
    ensures
        r@ == session_path@ + "/session.json"@,
{
    let mut r = String::from_str(session_path);
    r.append("/session.json");
    r
}

/// The run log of a session directory.
pub fn session_runlog_path(session_path: &str) -> (r: String)
    ensures
        r@ == session_path@ + "/run.md"@,
{
    let mut r = String::from_str(session_path);
    r.append("/run.md");
    r
}

/// The iteration log of a session directory.
pub fn session_log_path(session_path: &str) -> (r: String)
    ensures
        r@ == session_path@ + "/session.md"@,
{
    let mut r = String::from_str(session_path);
    r.append("/session.md");
    r
}

/// A fresh session record, before any invocation or iteration.
pub fn initial_session_json(
    session_id: String,
    version: &str,
    spec: &str,
    spec_name: &str,
    started_at: &str,
    cfg: &Config,
) -> (r: SessionJson)
    ensures
        r.session_id@ == session_id@,
        r.version@ == version@,
        r.spec@ == spec@,
        r.spec_name@ == spec_name@,
        r.started_at@ == started_at@,
        r.max_loops == cfg.max_loops,
        r.max_review_fix_loops == cfg.max_review_fix_loops,
        r.max_tasks_per_run == cfg.max_tasks_per_run,
        r.agent_sessions@.len() == 0,
        r.invocations@.len() == 0,
        r.iterations@.len() == 0,
        r.ended_at is None,
        r.duration_seconds is None,
        r.total_cost_microusd is None,
        r.exit_reason is None,
        r.total_iterations is None,
{
    SessionJson {
        session_id,
        version: version.to_owned(),
        spec: spec.to_owned(),
        spec_name: spec_name.to_owned(),
        started_at: started_at.to_owned(),
        max_loops: cfg.max_loops,
        max_review_fix_loops: cfg.max_review_fix_loops,
        max_tasks_per_run: cfg.max_tasks_per_run,
        agent_sessions: Vec::new(),
        invocations: Vec::new(),
        iterations: Vec::new(),
        ended_at: None,
        duration_seconds: None,
        total_cost_microusd: None,
        exit_reason: None,
        total_iterations: None,
    }
}

/// The first lines of a fresh run log.
pub open spec fn spec_run_log_header(
    spec_name: Seq<char>,
    spec_path: Seq<char>,
    now_human: Seq<char>,
) -> Seq<char> {
    "# Run Log\n\n- Spec: "@ + spec_name + "\n- Spec path: "@ + spec_path + "\n- Started: "@
        + now_human + "\n\n---\n"@
}

/// Builds the first lines of a fresh run log.
pub fn run_log_header(spec_name: &str, spec_path: &str, now_human: &str) -> (r: String)
    ensures
        r@ == spec_run_log_header(spec_name@, spec_path@, now_human@),
{
    let mut r = String::from_str("# Run Log\n\n- Spec: ");
    r.append(spec_name);
    r.append("\n- Spec path: ");
    r.append(spec_path);
    r.append("\n- Started: ");
    r.append(now_human);
    r.append("\n\n---\n");
    proof {
        assert(r@ =~= spec_run_log_header(spec_name@, spec_path@, now_human@));
    }
    r
}

/// The run-log fragment announcing one invocation.
pub open spec fn spec_invocation_header(
    now_human: Seq<char>,
    session_id: Seq<char>,
    mode: Seq<char>,
    once: bool,
    max_tasks: u32,
    max_loops: u32,
    skip_review: bool,
) -> Seq<char> {
    "\n## Invocation — "@ + now_human + "\n- Spec-loop Session ID: "@ + session_id + "\n- Mode: "@
        + mode + "\n- Flags: once="@ + spec_bool_str(once) + ", max_tasks="@ + spec_dec(
        max_tasks as nat,
    ) + ", max_loops="@ + spec_dec(max_loops as nat) + ", skip_review="@ + spec_bool_str(
        skip_review,
    )
        + "\n- Agent Sessions: recorded per phase below and in session.json invocations[].agent_session_ids\n\n"@
}

/// Appends one invocation to the session record and yields the run-log
/// fragment announcing it.
pub fn append_run_invocation_header(
    data: &mut SessionJson,
    session_id: &str,
    mode: &str,
    once: bool,
    max_tasks: u32,
    max_loops: u32,
    skip_review: bool,
    started_at: &str,
    now_human: &str,
) -> (r: String)
    ensures
        r@ == spec_invocation_header(
            now_human@,
            session_id@,
            mode@,
            once,
            max_tasks,
            max_loops,
            skip_review,
        ),
        final(data).invocations@.len() == old(data).invocations@.len() + 1,
        forall|j: int|
            0 <= j < old(data).invocations@.len() ==> final(data).invocations@[j] == old(
                data,
            ).invocations@[j],
        ({
            let inv = final(data).invocations@.last();
            inv.started_at@ == started_at@ && inv.mode@ == mode@ && inv.once == once
                && inv.max_tasks == max_tasks && inv.max_loops == max_loops && inv.skip_review
                == skip_review && inv.agent_session_ids@.len() == 0
        }),
        final(data).agent_sessions == old(data).agent_sessions,
        final(data).iterations == old(data).iterations,
        final(data).session_id == old(data).session_id,
        final(data).exit_reason == old(data).exit_reason,
        final(data).ended_at == old(data).ended_at,
        final(data).duration_seconds == old(data).duration_seconds,
        final(data).total_cost_microusd == old(data).total_cost_microusd,
        final(data).total_iterations == old(data).total_iterations,
        final(data).version == old(data).version,
        final(data).spec == old(data).spec,
        final(data).spec_name == old(data).spec_name,
        final(data).started_at == old(data).started_at,
        final(data).max_loops == old(data).max_loops,
        final(data).max_review_fix_loops == old(data).max_review_fix_loops,
        final(data).max_tasks_per_run == old(data).max_tasks_per_run,
{
    let mut r = String::from_str("\n## Invocation — ");
    r.append(now_human);
    r.append("\n- Spec-loop Session ID: ");
    r.append(session_id);
    r.append("\n- Mode: ");
    r.append(mode);
    r.append("\n- Flags: once=");
    r.append(bool_str(once));
    r.append(", max_tasks=");
    let mt = u64_to_dec(max_tasks as u64);
    r.append(mt.as_str());
    r.append(", max_loops=");
    let ml = u64_to_dec(max_loops as u64);
    r.append(ml.as_str());
    r.append(", skip_review=");
    r.append(bool_str(skip_review));
    r.append(
        "\n- Agent Sessions: recorded per phase below and in session.json invocations[].agent_session_ids\n\n",
    );
    proof {
        assert(r@ =~= spec_invocation_header(
            now_human@,
            session_id@,
            mode@,
            once,
            max_tasks,
            max_loops,
            skip_review,
        ));
    }
    data.invocations.push(
        SessionInvocation {
            started_at: started_at.to_owned(),
            mode: mode.to_owned(),
            once,
            max_tasks,
            max_loops,
            skip_review,
            agent_session_ids: Vec::new(),
        },
    );
    r
}

/// The run-log fragment announcing one iteration.
pub open spec fn spec_iteration_header(
    index: u32,
    task_name: Option<Seq<char>>,
    now_human: Seq<char>,
) -> Seq<char> {
    let head = "\n## Iteration "@ + spec_dec(index as nat) + " — "@ + now_human + "\n"@;
    let task_part = match task_name {
        Some(t) => {
            if t.len() > 0 {
                "- Task: "@ + t + "\n"@
            } else {
                Seq::empty()
            }
        },
        None => Seq::empty(),
    };
    head + task_part + "\n"@
}

/// Builds the run-log fragment announcing one iteration.
pub fn append_run_iteration_header(index: u32, task_name: Option<&str>, now_human: &str) -> (r:
    String)
    ensures
        r@ == spec_iteration_header(
            index,
            match task_name {
                Some(t) => Some(t@),
                None => None,
            },
            now_human@,
        ),
{
    let mut r = String::from_str("\n## Iteration ");
    let ix = u64_to_dec(index as u64);
    r.append(ix.as_str());
    r.append(" — ");
    r.append(now_human);
    r.append("\n");
    match task_name {
        Some(t) => {
            if !t.is_empty() {
                r.append("- Task: ");
                r.append(t);
                r.append("\n");
            }
        },
        None => {},
    }
    r.append("\n");
    proof {
        assert(r@ =~= spec_iteration_header(
            index,
            match task_name {
                Some(t) => Some(t@),
                None => None,
            },
            now_human@,
        ));
    }
    r
}

/// Whether some element of `ss` reads as `x`.
pub open spec fn spec_seq_contains(ss: Seq<Seq<char>>, x: Seq<char>) -> bool {
    exists|k: int| 0 <= k < ss.len() && ss[k] == x
}

fn vec_contains_str(v: &Vec<String>, x: &str) -> (r: bool)
    ensures
        r == spec_seq_contains(v.deep_view(), x@),
{
    let n = v.len();
    let mut i: usize = 0;
    while i < n
        invariant
            0 <= i <= n,
            n == v.len(),
            forall|k: int| 0 <= k < i ==> v.deep_view()[k] != x@,
        decreases n - i,
    {
        proof {
            assert(v.deep_view()[i as int] == v@[i as int]@);
        }
        if crate::text::str_eq(v[i].as_str(), x) {
            return true;
        }
        i = i + 1;
    }
    false
}

/// Registers an agent session id on the session record: the trimmed id is
/// added once to the session-wide list and once to the latest
/// invocation's list; a blank id changes nothing.
pub fn register_agent_session(data: &mut SessionJson, agent_session_id: &str)
    ensures
        ({
            let id = spec_trim(agent_session_id@);
            if id.len() == 0 {
                *final(data) == *old(data)
            } else {
                &&& final(data).agent_sessions.deep_view() == (if spec_seq_contains(
                    old(data).agent_sessions.deep_view(),
                    id,
                ) {
                    old(data).agent_sessions.deep_view()
                } else {
                    old(data).agent_sessions.deep_view().push(id)
                })
                &&& final(data).invocations@.len() == old(data).invocations@.len()
                &&& forall|j: int|
                    0 <= j < old(data).invocations@.len() - 1 ==> final(data).invocations@[j]
                        == old(data).invocations@[j]
                &&& (old(data).invocations@.len() > 0 ==> {
                    let oi = old(data).invocations@.last();
                    let ni = final(data).invocations@.last();
                    &&& ni.started_at == oi.started_at
                    &&& ni.mode == oi.mode
                    &&& ni.once == oi.once
                    &&& ni.max_tasks == oi.max_tasks
                    &&& ni.max_loops == oi.max_loops
                    &&& ni.skip_review == oi.skip_review
                    &&& ni.agent_session_ids.deep_view() == (if spec_seq_contains(
                        oi.agent_session_ids.deep_view(),
                        id,
                    ) {
                        oi.agent_session_ids.deep_view()
                    } else {
                        oi.agent_session_ids.deep_view().push(id)
                    })
                })
                &&& final(data).iterations == old(data).iterations
                &&& final(data).agent_sessions@.len() >= old(data).agent_sessions@.len()
                &&& final(data).session_id == old(data).session_id
                &&& final(data).exit_reason == old(data).exit_reason
                &&& final(data).version == old(data).version
                &&& final(data).spec == old(data).spec
                &&& final(data).spec_name == old(data).spec_name
                &&& final(data).started_at == old(data).started_at
                &&& final(data).max_loops == old(data).max_loops
                &&& final(data).max_review_fix_loops == old(data).max_review_fix_loops
                &&& final(data).max_tasks_per_run == old(data).max_tasks_per_run
                &&& final(data).ended_at == old(data).ended_at
                &&& final(data).duration_seconds == old(data).duration_seconds
                &&& final(data).total_cost_microusd == old(data).total_cost_microusd
                &&& final(data).total_iterations == old(data).total_iterations
            }
        }),
{
    let id = trim_str(agent_session_id);
    if id.as_str().is_empty() {
        return ;
    }
    if !vec_contains_str(&data.agent_sessions, id.as_str()) {
        data.agent_sessions.push(id.clone());
        proof {
            assert(data.agent_sessions.deep_view() =~= old(
                data,
            ).agent_sessions.deep_view().push(id@));
        }
    }
    let ninv = data.invocations.len();
    if ninv > 0 {
        let mut inv = match data.invocations.pop() {
            Some(x) => x,
            None => {
                return ;
            },
        };
        if !vec_contains_str(&inv.agent_session_ids, id.as_str()) {
            let ghost ids0 = inv.agent_session_ids.deep_view();
            inv.agent_session_ids.push(id.clone());
            proof {
                assert(inv.agent_session_ids.deep_view() =~= ids0.push(id@));
            }
        }
        data.invocations.push(inv);
        proof {
            assert(forall|j: int|
                0 <= j < old(data).invocations@.len() - 1 ==> data.invocations@[j] == old(
                    data,
                ).invocations@[j]);
        }
    }
}

/// The run-log fragment describing one agent phase: its status line,
/// duration and cost, the session id when one is known, the prompt when
/// non-blank, and the output, each section ending in a line feed.
pub open spec fn spec_run_phase_text(
    phase_name: Seq<char>,
    status: Seq<char>,
    cost_microusd: u64,
    duration_ms: u64,
    output: Seq<char>,
    prompt: Seq<char>,
    agent_session_id: Seq<char>,
) -> Seq<char> {
    let head = "### "@ + phase_name + "\n- Status: "@ + status + "\n- Duration: "@
        + spec_format_duration((duration_ms / 1000) as u64) + "\n- Cost: "@ + spec_format_cost(
        cost_microusd,
    ) + "\n"@;
    let sess = if spec_trim(agent_session_id).len() > 0 {
        "- Agent Session: "@ + agent_session_id + "\n"@
    } else {
        Seq::<char>::empty()
    };
    let prompt_part = if spec_trim(prompt).len() > 0 {
        "#### Prompt\n\n"@ + prompt + (if prompt.len() > 0 && prompt.last() == '\n' {
            Seq::<char>::empty()
        } else {
            "\n"@
        }) + "\n"@
    } else {
        Seq::<char>::empty()
    };
    let output_part = "#### Output\n\n"@ + output + (if output.len() > 0 && output.last() == '\n' {
        Seq::<char>::empty()
    } else {
        "\n"@
    }) + "\n"@;
    head + sess + "\n"@ + prompt_part + output_part
}

/// Builds the run-log fragment describing one agent phase.
#[verifier::rlimit(100)]
pub fn append_run_phase(
    phase_name: &str,
    status: &str,
    cost_microusd: u64,
    duration_ms: u64,
    output: &str,
    prompt: &str,
    agent_session_id: &str,
) -> (r: String)
    ensures
        r@ == spec_run_phase_text(
            phase_name@,
            status@,
            cost_microusd,
            duration_ms,
            output@,
            prompt@,
            agent_session_id@,
        ),
{
    let mut r = String::from_str("### ");
    r.append(phase_name);
    r.append("\n- Status: ");
    r.append(status);
    r.append("\n- Duration: ");
    let fd = format_duration(duration_ms / 1000);
    r.append(fd.as_str());
    r.append("\n- Cost: ");
    let fc = format_cost(cost_microusd);
    r.append(fc.as_str());
    r.append("\n");
    let (slo, shi) = crate::text::trim_bounds(agent_session_id);
    if shi > slo {
        r.append("- Agent Session: ");
        r.append(agent_session_id);
        r.append("\n");
    }
    r.append("\n");
    let (plo, phi) = crate::text::trim_bounds(prompt);
    if phi > plo {
        r.append("#### Prompt\n\n");
        r.append(prompt);
        let pn: usize = prompt.unicode_len();
        if !(pn > 0 && prompt.get_char(pn - 1) == '\n') {
            r.append("\n");
        }
        r.append("\n");
    }
    r.append("#### Output\n\n");
    r.append(output);
    let on: usize = output.unicode_len();
    if !(on > 0 && output.get_char(on - 1) == '\n') {
        r.append("\n");
    }
    r.append("\n");
    proof {
        assert(r@ =~= spec_run_phase_text(
            phase_name@,
            status@,
            cost_microusd,
            duration_ms,
            output@,
            prompt@,
            agent_session_id@,
        ));
    }
    r
}

/// One iteration's inputs for the iteration log.
pub struct IterationLogInput {
    pub index: u32,
    pub task_name: String,
    pub outcome: String,
    pub duration_seconds: u64,
    pub cost_microusd: u64,
    pub must_fix_count: u32,
    pub should_fix_count: u32,
    pub commit_sha: String,
}

/// The short form of a progress marker: its first seven characters.
pub open spec fn spec_short_sha(sha: Seq<char>) -> Seq<char> {
    if sha.len() <= 7 {
        sha
    } else {
        sha.take(7)
    }
}

/// The iteration-log fragment for one iteration.
pub open spec fn spec_iteration_log_text(
    input_index: u32,
    task_name: Seq<char>,
    outcome: Seq<char>,
    duration_seconds: u64,
    cost_microusd: u64,
    must_fix: u32,
    should_fix: u32,
    commit_sha: Seq<char>,
    now_human: Seq<char>,
) -> Seq<char> {
    let head = "## Iteration "@ + spec_dec(input_index as nat) + " — "@ + now_human + "\n"@;
    let task_part = if spec_trim(task_name).len() > 0 {
        "- Task: "@ + task_name + "\n"@
    } else {
        Seq::empty()
    };
    let mid = "- Outcome: "@ + outcome + "\n- Duration: "@ + spec_format_duration(
        duration_seconds,
    ) + "\n- Cost: "@ + spec_format_cost(cost_microusd) + "\n- Must-fix: "@ + spec_dec(
        must_fix as nat,
    ) + "\n- Should-fix: "@ + spec_dec(should_fix as nat) + "\n"@;
    let commit_part = if spec_short_sha(commit_sha).len() > 0 {
        "- Commit: "@ + spec_short_sha(commit_sha) + "\n"@
    } else {
        Seq::empty()
    };
    head + task_part + mid + commit_part + "\n"@
}

/// Appends one iteration to the session record and yields the
/// iteration-log fragment describing it.
#[verifier::rlimit(100)]
pub fn append_iteration_log(
    data: &mut SessionJson,
    input: &IterationLogInput,
    now_human: &str,
    now_iso: &str,
) -> (r: String)
    ensures
        r@ == spec_iteration_log_text(
            input.index,
            input.task_name@,
            input.outcome@,
            input.duration_seconds,
            input.cost_microusd,
            input.must_fix_count,
            input.should_fix_count,
            input.commit_sha@,
            now_human@,
        ),
        final(data).iterations@.len() == old(data).iterations@.len() + 1,
        forall|j: int|
            0 <= j < old(data).iterations@.len() ==> final(data).iterations@[j] == old(
                data,
            ).iterations@[j],
        ({
            let it = final(data).iterations@.last();
            it.index == input.index && it.task@ == input.task_name@ && it.outcome@
                == input.outcome@ && it.duration_seconds == input.duration_seconds
                && it.cost_microusd == input.cost_microusd && it.must_fix_count
                == input.must_fix_count && it.should_fix_count == input.should_fix_count
                && it.commit@ == input.commit_sha@ && it.timestamp@ == now_iso@
        }),
        final(data).invocations == old(data).invocations,
        final(data).agent_sessions == old(data).agent_sessions,
        final(data).session_id == old(data).session_id,
        final(data).exit_reason == old(data).exit_reason,
        final(data).ended_at == old(data).ended_at,
        final(data).duration_seconds == old(data).duration_seconds,
        final(data).total_cost_microusd == old(data).total_cost_microusd,
        final(data).total_iterations == old(data).total_iterations,
        final(data).version == old(data).version,
        final(data).spec == old(data).spec,
        final(data).spec_name == old(data).spec_name,
        final(data).started_at == old(data).started_at,
        final(data).max_loops == old(data).max_loops,
        final(data).max_review_fix_loops == old(data).max_review_fix_loops,
        final(data).max_tasks_per_run == old(data).max_tasks_per_run,
{
    let mut r = String::from_str("## Iteration ");
    let ix = u64_to_dec(input.index as u64);
    r.append(ix.as_str());
    r.append(" — ");
    r.append(now_human);
    r.append("\n");
    let (tlo, thi) = crate::text::trim_bounds(input.task_name.as_str());
    if thi > tlo {
        r.append("- Task: ");
        r.append(input.task_name.as_str());
        r.append("\n");
    }
    r.append("- Outcome: ");
    r.append(input.outcome.as_str());
    r.append("\n- Duration: ");
    let fd = format_duration(input.duration_seconds);
    r.append(fd.as_str());
    r.append("\n- Cost: ");
    let fc = format_cost(input.cost_microusd);
    r.append(fc.as_str());
    r.append("\n- Must-fix: ");
    let mf = u64_to_dec(input.must_fix_count as u64);
    r.append(mf.as_str());
    r.append("\n- Should-fix: ");
    let sf = u64_to_dec(input.should_fix_count as u64);
    r.append(sf.as_str());
    r.append("\n");
    let short = crate::text::take_prefix(input.commit_sha.as_str(), 7);
    if !short.as_str().is_empty() {
        r.append("- Commit: ");
        r.append(short.as_str());
        r.append("\n");
    }
    r.append("\n");
    proof {
        assert(short@ == spec_short_sha(input.commit_sha@));
        assert(r@ =~= spec_iteration_log_text(
            input.index,
            input.task_name@,
            input.outcome@,
            input.duration_seconds,
            input.cost_microusd,
            input.must_fix_count,
            input.should_fix_count,
            input.commit_sha@,
            now_human@,
        ));
    }
    data.iterations.push(
        SessionIteration {
            index: input.index,
            task: input.task_name.clone(),
            outcome: input.outcome.clone(),
            duration_seconds: input.duration_seconds,
            cost_microusd: input.cost_microusd,
            must_fix_count: input.must_fix_count,
            should_fix_count: input.should_fix_count,
            commit: input.commit_sha.clone(),
            timestamp: now_iso.to_owned(),
        },
    );
    r
}

/// Stamps the session record's terminal fields: end time, duration since
/// the start (never negative), total cost, exit reason and iteration
/// count.
pub fn finalize_session(
    data: &mut SessionJson,
    now_iso: &str,
    now_epoch: i64,
    started_epoch: i64,
    total_cost_microusd: u64,
    exit_reason: &str,
    total_iterations: u32,
)
    ensures
        (final(data).ended_at matches Some(e) && e@ == now_iso@),
        final(data).duration_seconds == Some(
            (if now_epoch >= started_epoch {
                (now_epoch - started_epoch) as u64
            } else {
                0u64
            }),
        ),
        final(data).total_cost_microusd == Some(total_cost_microusd),
        (final(data).exit_reason matches Some(er) && er@ == exit_reason@),
        final(data).total_iterations == Some(total_iterations),
        final(data).iterations == old(data).iterations,
        final(data).invocations == old(data).invocations,
        final(data).agent_sessions == old(data).agent_sessions,
        final(data).session_id == old(data).session_id,
        final(data).spec == old(data).spec,
        final(data).started_at == old(data).started_at,
        final(data).version == old(data).version,
        final(data).spec_name == old(data).spec_name,
        final(data).max_loops == old(data).max_loops,
        final(data).max_review_fix_loops == old(data).max_review_fix_loops,
        final(data).max_tasks_per_run == old(data).max_tasks_per_run,
{
    let d: i128 = now_epoch as i128 - started_epoch as i128;
    let duration: u64 = if d >= 0 {
        d as u64
    } else {
        0
    };
    data.ended_at = Some(now_iso.to_owned());
    data.duration_seconds = Some(duration);
    data.total_cost_microusd = Some(total_cost_microusd);
    data.exit_reason = Some(exit_reason.to_owned());
    data.total_iterations = Some(total_iterations);
}

/// How many iterations the session has recorded.
pub fn session_iterations_count(data: &SessionJson) -> (r: u32)
    requires
        data.iterations@.len() <= u32::MAX,
    ensures
        r == data.iterations@.len(),
{
    data.iterations.len() as u32
}

/// The session's total iteration count: the finalised figure when one
/// was stamped, the recorded iterations otherwise.
pub fn session_total_iterations(data: &SessionJson) -> (r: u32)
    requires
        data.iterations@.len() <= u32::MAX,
    ensures
        r == (match data.total_iterations {
            Some(n) => n,
            None => data.iterations@.len() as u32,
        }),
{
    match data.total_iterations {
        Some(n) => n,
        None => data.iterations.len() as u32,
    }
}

/// The session's total cost, zero until finalised.
pub fn session_total_cost(data: &SessionJson) -> (r: u64)
    ensures
        r == (match data.total_cost_microusd {
            Some(c) => c,
            None => 0u64,
        }),
{
    match data.total_cost_microusd {
        Some(c) => c,
        None => 0,
    }
}

/// The newest session (the caller hands them newest first) recorded
/// against exactly this specification path.
pub fn session_latest_for_spec(sessions: &Vec<(String, SessionJson)>, spec: &str) -> (r: Option<
    usize,
>)
    ensures
        match r {
            Some(i) => i < sessions@.len() && sessions@[i as int].1.spec@ == spec@ && forall|j: int|
                0 <= j < i ==> sessions@[j].1.spec@ != spec@,
            None => forall|j: int| 0 <= j < sessions@.len() ==> sessions@[j].1.spec@ != spec@,
        },
{
    let n = sessions.len();
    let mut i: usize = 0;
    while i < n
        invariant
            0 <= i <= n,
            n == sessions.len(),
            forall|j: int| 0 <= j < i ==> sessions@[j].1.spec@ != spec@,
        decreases n - i,
    {
        if crate::text::str_eq(sessions[i].1.spec.as_str(), spec) {
            return Some(i);
        }
        i = i + 1;
    }
    None
}

/// A session a new run may continue: its last run ended voluntarily, on
/// the task budget or after a single requested cycle.
pub open spec fn spec_continuable(data: SessionJson) -> bool {
    match data.exit_reason {
        Some(er) => er@ == "ONCE"@ || er@ == "TASK_LIMIT"@,
        None => false,
    }
}

/// The newest session for this specification, provided it ended in a
/// continuable way.
pub fn session_continuation_for_spec(sessions: &Vec<(String, SessionJson)>, spec: &str) -> (r:
    Option<usize>)
    ensures
        match r {
            Some(i) => i < sessions@.len() && sessions@[i as int].1.spec@ == spec@
                && spec_continuable(sessions@[i as int].1) && forall|j: int|
                0 <= j < i ==> sessions@[j].1.spec@ != spec@,
            None => forall|j: int|
                0 <= j < sessions@.len() ==> (sessions@[j].1.spec@ == spec@ ==> (forall|k: int|
                    0 <= k < j ==> sessions@[k].1.spec@ != spec@) ==> !spec_continuable(
                    sessions@[j].1,
                )),
        },
{
    match session_latest_for_spec(sessions, spec) {
        Some(i) => {
            let data = &sessions[i].1;
            let continuable = match &data.exit_reason {
                Some(er) => crate::text::str_eq(er.as_str(), "ONCE") || crate::text::str_eq(
                    er.as_str(),
                    "TASK_LIMIT",
                ),
                None => false,
            };
            if continuable {
                Some(i)
            } else {
                None
            }
        },
        None => None,
    }
}

/// A checkpoint value ready to persist.
pub fn build_resume_state(
    spec_dir: &str,
    loop_index: u32,
    session_path: &str,
    phase: &str,
    before_sha: &str,
    saved_at: &str,
) -> (r: ResumeState)
    ensures
        r.spec_dir@ == spec_dir@,
        r.loop_index == loop_index,
        r.session_path@ == session_path@,
        r.phase@ == phase@,
        r.before_sha@ == before_sha@,
        r.saved_at@ == saved_at@,
{
    ResumeState {
        spec_dir: spec_dir.to_owned(),
        loop_index,
        session_path: session_path.to_owned(),
        phase: phase.to_owned(),
        before_sha: before_sha.to_owned(),
        saved_at: saved_at.to_owned(),
    }
}

/// Whether a loaded checkpoint may be used: it must name a specification
/// directory, and that directory must still exist.
pub fn resume_state_usable(state: &ResumeState, spec_dir_exists: bool) -> (r: bool)
    ensures
        r == (state.spec_dir@.len() > 0 && spec_dir_exists),
{
    !state.spec_dir.as_str().is_empty() && spec_dir_exists
}

} // verus!
