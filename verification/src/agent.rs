//! Parsing of the external agent's output: the status key/value lines it
//! must end with, the out-of-band promise tags, and the event stream whose
//! final result event carries cost and duration.
//!
//! Costs are held in integral micro-dollars throughout the library.

use vstd::prelude::*;
use vstd::string::*;
use crate::text::{
    contains_sub, eq_at, find_sub, first_match_idx, first_token, lemma_first_match_idx_none,
    lemma_first_match_idx_some, spec_contains, spec_lines, spec_trim, split_lines, token_end_from,
    trim_bounds, trim_str,
};

verus! {

/// The parsed outcome of one agent invocation.
pub struct AgentResult {
    pub output_text: String,
    pub cost_microusd: u64,
    pub duration_ms: u64,
    pub agent_session_id: String,
}

/// The `KEY:` prefix a status line starts with.
pub open spec fn spec_key_prefix(key: Seq<char>) -> Seq<char> {
    key + seq![':']
}

/// What a line yields when it starts (after trimming) with the prefix:
/// the trimmed remainder.
pub open spec fn line_kv_direct(l: Seq<char>, prefix: Seq<char>) -> Option<Seq<char>> {
    let t = spec_trim(l);
    if prefix.len() <= t.len() && t.take(prefix.len() as int) == prefix {
        Some(spec_trim(t.skip(prefix.len() as int)))
    } else {
        None
    }
}

/// The first line that starts with the prefix, trimmed.
pub open spec fn kv_direct(ls: Seq<Seq<char>>, prefix: Seq<char>) -> Option<Seq<char>>
    decreases ls.len(),
{
    if ls.len() == 0 {
        None
    } else {
        match line_kv_direct(ls[0], prefix) {
            Some(v) => Some(v),
            None => kv_direct(ls.skip(1), prefix),
        }
    }
}

/// What a line yields when the prefix occurs anywhere inside it: the
/// first whitespace-delimited token after the first occurrence, provided
/// something non-blank follows.
pub open spec fn line_kv_embedded(l: Seq<char>, prefix: Seq<char>) -> Option<Seq<char>> {
    let p = first_match_idx(l, prefix, 0);
    if p >= 0 {
        let rest = l.skip(p + prefix.len());
        if spec_trim(rest).len() > 0 {
            Some(first_token(rest))
        } else {
            None
        }
    } else {
        None
    }
}

/// The first line holding the prefix with something after it.
pub open spec fn kv_embedded(ls: Seq<Seq<char>>, prefix: Seq<char>) -> Option<Seq<char>>
    decreases ls.len(),
{
    if ls.len() == 0 {
        None
    } else {
        match line_kv_embedded(ls[0], prefix) {
            Some(v) => Some(v),
            None => kv_embedded(ls.skip(1), prefix),
        }
    }
}

/// What `parse_kv` extracts for `key` from the agent output: a line that
/// starts with `key:` wins; failing that, the first token after an
/// embedded `key:` occurrence; failing that, nothing.
pub open spec fn spec_parse_kv(output: Seq<char>, key: Seq<char>) -> Option<Seq<char>> {
    let prefix = spec_key_prefix(key);
    let ls = spec_lines(output);
    match kv_direct(ls, prefix) {
        Some(v) => Some(v),
        None => kv_embedded(ls, prefix),
    }
}

/// Extracts the value of a `KEY: value` status line from agent output.
#[verifier::rlimit(60)]
pub fn parse_kv(output: &str, key: &str) -> (r: Option<String>)
    ensures
        match r {
            Some(v) => spec_parse_kv(output@, key@) == Some(v@),
            None => spec_parse_kv(output@, key@) is None,
        },
{
    let mut prefix = String::from_str(key);
    crate::text::push_char(&mut prefix, ':');
    proof {
        assert(prefix@ == spec_key_prefix(key@)) by {
            assert(prefix@ =~= key@ + seq![':']);
        }
    }
    let ghost pfx = spec_key_prefix(key@);
    let lines = split_lines(output);
    let ghost ls = spec_lines(output@);
    let n = lines.len();
    let plen = prefix.as_str().unicode_len();

    let mut i: usize = 0;
    proof {
        assert(ls.skip(0) =~= ls);
    }
    while i < n
        invariant
            0 <= i <= n,
            n == lines.len(),
            ls == lines.deep_view(),
            ls == spec_lines(output@),
            prefix@ == pfx,
            pfx == spec_key_prefix(key@),
            plen == pfx.len(),
            kv_direct(ls, pfx) == kv_direct(ls.skip(i as int), pfx),
        decreases n - i,
    {
        let line = &lines[i];
        proof {
            assert(line@ == ls[i as int]);
            assert(ls.skip(i as int)[0] == ls[i as int]);
            assert(ls.skip(i as int).skip(1) =~= ls.skip(i + 1));
        }
        let (lo, hi) = trim_bounds(line.as_str());
        let ghost t = spec_trim(line@);
        if plen <= hi - lo && eq_at(line.as_str(), lo, prefix.as_str()) {
            proof {
                assert(t.take(plen as int) =~= line@.subrange(lo as int, lo + plen));
            }
            let rest = line.as_str().substring_char(lo + plen, hi);
            proof {
                assert(rest@ =~= t.skip(plen as int));
            }
            let v = trim_str(rest);
            return Some(v);
        }
        proof {
            if plen <= t.len() {
                assert(t.take(plen as int) =~= line@.subrange(lo as int, lo + plen));
            }
            assert(line_kv_direct(line@, pfx) is None);
        }
        i = i + 1;
    }
    proof {
        assert(ls.skip(n as int) =~= Seq::<Seq<char>>::empty());
        assert(kv_direct(ls, pfx) is None);
    }

    let mut i: usize = 0;
    proof {
        assert(ls.skip(0) =~= ls);
    }
    while i < n
        invariant
            0 <= i <= n,
            n == lines.len(),
            ls == lines.deep_view(),
            ls == spec_lines(output@),
            prefix@ == pfx,
            pfx == spec_key_prefix(key@),
            plen == pfx.len(),
            kv_direct(ls, pfx) is None,
            kv_embedded(ls, pfx) == kv_embedded(ls.skip(i as int), pfx),
        decreases n - i,
    {
        let line = &lines[i];
        proof {
            assert(line@ == ls[i as int]);
            assert(ls.skip(i as int)[0] == ls[i as int]);
            assert(ls.skip(i as int).skip(1) =~= ls.skip(i + 1));
        }
        match find_sub(line.as_str(), prefix.as_str()) {
            Some(p) => {
                proof {
                    lemma_first_match_idx_some(line@, pfx, 0, p as int);
                }
                let ln: usize = line.as_str().unicode_len();
                let rest = line.as_str().substring_char(p + plen, ln);
                proof {
                    assert(rest@ =~= line@.skip(p + plen));
                }
                let (rlo, rhi) = trim_bounds(rest);
                if rhi > rlo {
                    let b = token_end_from(rest, rlo);
                    let tok = rest.substring_char(rlo, b);
                    proof {
                        assert(tok@ =~= first_token(rest@));
                    }
                    return Some(String::from_str(tok));
                }
                proof {
                    assert(spec_trim(rest@).len() == 0);
                    assert(line_kv_embedded(line@, pfx) is None);
                }
            },
            None => {
                proof {
                    lemma_first_match_idx_none(line@, pfx, 0);
                    assert(line_kv_embedded(line@, pfx) is None);
                }
            },
        }
        i = i + 1;
    }
    proof {
        assert(ls.skip(n as int) =~= Seq::<Seq<char>>::empty());
        assert(kv_embedded(ls, pfx) is None);
    }
    None
}

/// The text a promise tag wraps: `<promise>TAG</promise>`.
pub open spec fn spec_tag_pat(tag: Seq<char>) -> Seq<char> {
    "<promise>"@ + tag + "</promise>"@
}

/// Whether the output carries the given promise tag.
pub fn has_tag(output: &str, tag: &str) -> (r: bool)
    ensures
        r == spec_contains(output@, spec_tag_pat(tag@)),
{
    let mut pat = String::from_str("<promise>");
    pat.append(tag);
    pat.append("</promise>");
    proof {
        assert(pat@ =~= spec_tag_pat(tag@));
    }
    contains_sub(output, pat.as_str())
}

/// One line of the agent's event stream, as the caller decodes it.
pub enum StreamEvent {
    /// The stream-opening system event, possibly naming the agent session.
    SystemInit { session_id: Option<String> },
    /// The terminal result event with the run's totals.
    ResultSummary {
        session_id: Option<String>,
        result_text: Option<String>,
        cost_microusd: Option<u64>,
        duration_ms: Option<u64>,
    },
    /// Any other event.
    Other,
}

/// Accumulated fields while folding the event stream.
pub struct StreamFold {
    pub session_id: Seq<char>,
    pub output_text: Seq<char>,
    pub cost_microusd: u64,
    pub duration_ms: u64,
}

pub open spec fn stream_fold_init() -> StreamFold {
    StreamFold {
        session_id: Seq::empty(),
        output_text: Seq::empty(),
        cost_microusd: 0,
        duration_ms: 0,
    }
}

/// How one event updates the accumulated fields: an init event always
/// renames the session; a result event names it only when none is known
/// yet, and overwrites text, cost and duration where present.
pub open spec fn step_stream(acc: StreamFold, ev: StreamEvent) -> StreamFold {
    match ev {
        StreamEvent::SystemInit { session_id } => match session_id {
            Some(s) => StreamFold { session_id: s@, ..acc },
            None => acc,
        },
        StreamEvent::ResultSummary { session_id, result_text, cost_microusd, duration_ms } => {
            let a1 = if acc.session_id.len() == 0 {
                match session_id {
                    Some(s) => StreamFold { session_id: s@, ..acc },
                    None => acc,
                }
            } else {
                acc
            };
            let a2 = match result_text {
                Some(t) => StreamFold { output_text: t@, ..a1 },
                None => a1,
            };
            let a3 = match cost_microusd {
                Some(c) => StreamFold { cost_microusd: c, ..a2 },
                None => a2,
            };
            match duration_ms {
                Some(d) => StreamFold { duration_ms: d, ..a3 },
                None => a3,
            }
        },
        StreamEvent::Other => acc,
    }
}

pub open spec fn fold_stream(evs: Seq<StreamEvent>, acc: StreamFold) -> StreamFold
    decreases evs.len(),
{
    if evs.len() == 0 {
        acc
    } else {
        fold_stream(evs.skip(1), step_stream(acc, evs[0]))
    }
}

/// Assembles the agent result from the decoded event stream: the last
/// result event's text, cost and duration, the session the stream named,
/// and — when no result text was seen — the raw lines joined back.
pub fn parse_stream(lines: &Vec<String>, events: &Vec<StreamEvent>) -> (r: AgentResult)
    ensures
        ({
            let f = fold_stream(events@, stream_fold_init());
            r.agent_session_id@ == f.session_id && r.cost_microusd == f.cost_microusd
                && r.duration_ms == f.duration_ms && r.output_text@ == (if f.output_text.len() == 0 {
                crate::text::spec_join_nl(lines.deep_view())
            } else {
                f.output_text
            })
        }),
{
    let ghost evs = events@;
    let mut session_id = String::new();
    let mut output_text = String::new();
    let mut cost: u64 = 0;
    let mut duration: u64 = 0;
    let n = events.len();
    let mut i: usize = 0;
    proof {
        assert(evs.skip(0) =~= evs);
    }
    while i < n
        invariant
            0 <= i <= n,
            n == events.len(),
            evs == events@,
            fold_stream(evs, stream_fold_init()) == fold_stream(
                evs.skip(i as int),
                (StreamFold {
                    session_id: session_id@,
                    output_text: output_text@,
                    cost_microusd: cost,
                    duration_ms: duration,
                }),
            ),
        decreases n - i,
    {
        proof {
            assert(evs.skip(i as int)[0] == evs[i as int]);
            assert(evs.skip(i as int).skip(1) =~= evs.skip(i + 1));
        }
        match &events[i] {
            StreamEvent::SystemInit { session_id: sid } => {
                match sid {
                    Some(s) => {
                        session_id = s.clone();
                    },
                    None => {},
                }
            },
            StreamEvent::ResultSummary {
                session_id: sid,
                result_text,
                cost_microusd,
                duration_ms,
            } => {
                if session_id.as_str().is_empty() {
                    match sid {
                        Some(s) => {
                            session_id = s.clone();
                        },
                        None => {},
                    }
                }
                match result_text {
                    Some(t) => {
                        output_text = t.clone();
                    },
                    None => {},
                }
                match cost_microusd {
                    Some(c) => {
                        cost = *c;
                    },
                    None => {},
                }
                match duration_ms {
                    Some(d) => {
                        duration = *d;
                    },
                    None => {},
                }
            },
            StreamEvent::Other => {},
        }
        i = i + 1;
    }
    proof {
        assert(evs.skip(n as int) =~= Seq::<StreamEvent>::empty());
    }
    if output_text.as_str().is_empty() {
        output_text = crate::text::join_nl(lines);
    }
    AgentResult { output_text, cost_microusd: cost, duration_ms: duration, agent_session_id: session_id }
}

/// The canned responses a dry run yields: a clean review for a
/// review-shaped prompt, a fixes-applied status for a fix-shaped prompt,
/// and a completed task otherwise, all free of cost.
pub fn simulate(prompt: &str) -> (r: AgentResult)
    ensures
        r.cost_microusd == 0,
        r.duration_ms == 0,
        r.agent_session_id@ == "dry-run-session"@,
        r.output_text@ == (if spec_contains(prompt@, "REVIEW_STATUS:"@) || spec_contains(
            prompt@,
            "reviewing completed work"@,
        ) {
            "REVIEW_STATUS: PASS\nMUST_FIX_COUNT: 0\nSHOULD_FIX_COUNT: 0\nSUGGESTION_COUNT: 0"@
        } else if spec_contains(prompt@, "BUILD_STATUS: FIXES_APPLIED"@) || spec_contains(
            prompt@,
            "failed review"@,
        ) {
            "BUILD_STATUS: FIXES_APPLIED"@
        } else {
            "BUILD_STATUS: COMPLETED_TASK"@
        }),
{
    let output_text = if contains_sub(prompt, "REVIEW_STATUS:") || contains_sub(
        prompt,
        "reviewing completed work",
    ) {
        String::from_str(
            "REVIEW_STATUS: PASS\nMUST_FIX_COUNT: 0\nSHOULD_FIX_COUNT: 0\nSUGGESTION_COUNT: 0",
        )
    } else if contains_sub(prompt, "BUILD_STATUS: FIXES_APPLIED") || contains_sub(
        prompt,
        "failed review",
    ) {
        String::from_str("BUILD_STATUS: FIXES_APPLIED")
    } else {
        String::from_str("BUILD_STATUS: COMPLETED_TASK")
    };
    AgentResult {
        output_text,
        cost_microusd: 0,
        duration_ms: 0,
        agent_session_id: String::from_str("dry-run-session"),
    }
}

} // verus!
