//! The run configuration: defaults, the `.speclooprc` key/value format,
//! and the project-type detection rules.
//!
//! Reading the file, the environment and the command line stays with the
//! caller; the merge rules below are verified.

use vstd::prelude::*;
use vstd::string::*;
use crate::cli::RunArgs;
use crate::text::{
    first_match_idx, spec_parse_u32, spec_trim, parse_u32, split_lines, spec_lines, trim_bounds,
    str_eq, lemma_first_match_idx_some, lemma_first_match_idx_none, find_sub,
};

verus! {

pub const DEFAULT_MAX_LOOPS: u32 = 25;

pub const DEFAULT_MAX_REVIEW_FIX_LOOPS: u32 = 3;

pub const DEFAULT_MAX_TASKS_PER_RUN: u32 = 0;

pub const DEFAULT_CB_NO_PROGRESS_THRESHOLD: u32 = 3;

pub const DEFAULT_CB_COOLDOWN_MINUTES: u32 = 30;

/// Everything a run is configured by.
pub struct Config {
    pub speclooprc: String,
    pub project_type: String,
    pub verify_command: String,
    pub test_command: String,
    pub agent_bin: String,
    pub agent_model: String,
    pub agent_extra_args: String,
    pub specs_dir: String,
    pub session_dir: String,
    pub max_loops: u32,
    pub max_review_fix_loops: u32,
    pub max_tasks_per_run: u32,
    pub cb_no_progress_threshold: u32,
    pub cb_cooldown_minutes: u32,
}

impl Default for Config {
    /// The built-in defaults. Environment overrides (the agent binary and
    /// its extra arguments) are the caller's to apply on top.
    fn default() -> (r: Config)
        ensures
            r.speclooprc@ == ".speclooprc"@,
            r.project_type@.len() == 0,
            r.verify_command@.len() == 0,
            r.test_command@.len() == 0,
            r.agent_bin@ == "agent"@,
            r.agent_model@.len() == 0,
            r.agent_extra_args@.len() == 0,
            r.specs_dir@ == ".agents/specs"@,
            r.session_dir@ == ".spec-loop/sessions"@,
            r.max_loops == DEFAULT_MAX_LOOPS,
            r.max_review_fix_loops == DEFAULT_MAX_REVIEW_FIX_LOOPS,
            r.max_tasks_per_run == DEFAULT_MAX_TASKS_PER_RUN,
            r.cb_no_progress_threshold == DEFAULT_CB_NO_PROGRESS_THRESHOLD,
            r.cb_cooldown_minutes == DEFAULT_CB_COOLDOWN_MINUTES,
    {
        Config {
            speclooprc: String::from_str(".speclooprc"),
            project_type: String::new(),
            verify_command: String::new(),
            test_command: String::new(),
            agent_bin: String::from_str("agent"),
            agent_model: String::new(),
            agent_extra_args: String::new(),
            specs_dir: String::from_str(".agents/specs"),
            session_dir: String::from_str(".spec-loop/sessions"),
            max_loops: DEFAULT_MAX_LOOPS,
            max_review_fix_loops: DEFAULT_MAX_REVIEW_FIX_LOOPS,
            max_tasks_per_run: DEFAULT_MAX_TASKS_PER_RUN,
            cb_no_progress_threshold: DEFAULT_CB_NO_PROGRESS_THRESHOLD,
            cb_cooldown_minutes: DEFAULT_CB_COOLDOWN_MINUTES,
        }
    }
}

/// The value a quoted setting denotes: matching double or single quotes
/// are stripped; a lone quote character stays as it is.
pub open spec fn spec_unquote(v: Seq<char>) -> Seq<char> {
    if v.len() >= 2 && ((v[0] == '"' && v[v.len() - 1] == '"') || (v[0] == '\'' && v[v.len() - 1]
        == '\'')) {
        v.subrange(1, v.len() - 1)
    } else {
        v
    }
}

/// The key/value pair one settings line contributes: blank lines and `#`
/// comments yield nothing, as does a line without `=`; otherwise the text
/// before the first `=` (trimmed) maps to the text after it (trimmed,
/// unquoted).
pub open spec fn spec_rc_line(l: Seq<char>) -> Option<(Seq<char>, Seq<char>)> {
    let t = spec_trim(l);
    if t.len() == 0 || t[0] == '#' {
        None
    } else {
        let p = first_match_idx(t, seq!['='], 0);
        if p >= 0 {
            Some(
                (spec_trim(t.take(p)), spec_unquote(spec_trim(t.skip(p + 1)))),
            )
        } else {
            None
        }
    }
}

/// The pairs of a whole settings file, in line order.
pub open spec fn spec_rc_pairs(ls: Seq<Seq<char>>) -> Seq<(Seq<char>, Seq<char>)>
    decreases ls.len(),
{
    if ls.len() == 0 {
        Seq::empty()
    } else {
        (match spec_rc_line(ls[0]) {
            Some(p) => seq![p],
            None => Seq::empty(),
        }) + spec_rc_pairs(ls.skip(1))
    }
}

/// Parses the `.speclooprc` settings format into key/value pairs.
#[verifier::rlimit(60)]
pub fn parse_speclooprc(content: &str) -> (r: Vec<(String, String)>)
    ensures
        ({
            let ps = spec_rc_pairs(spec_lines(content@));
            r@.len() == ps.len() && forall|i: int|
                0 <= i < ps.len() ==> r@[i].0@ == ps[i].0 && r@[i].1@ == ps[i].1
        }),
{
    let lines = split_lines(content);
    let ghost ls = spec_lines(content@);
    let n = lines.len();
    let mut out: Vec<(String, String)> = Vec::new();
    let mut i: usize = 0;
    proof {
        assert(ls.skip(0) =~= ls);
        assert(spec_rc_pairs(ls) =~= Seq::<(Seq<char>, Seq<char>)>::empty() + spec_rc_pairs(ls));
    }
    while i < n
        invariant
            0 <= i <= n,
            n == lines.len(),
            ls == lines.deep_view(),
            ls == spec_lines(content@),
            ({
                let done = spec_rc_pairs(ls).len() - spec_rc_pairs(ls.skip(i as int)).len();
                &&& out@.len() == done
                &&& spec_rc_pairs(ls) == out@.map_values(|p: (String, String)| (p.0@, p.1@))
                    + spec_rc_pairs(ls.skip(i as int))
            }),
        decreases n - i,
    {
        let line = &lines[i];
        let ghost out0 = out@;
        proof {
            assert(line@ == ls[i as int]);
            assert(ls.skip(i as int)[0] == ls[i as int]);
            assert(ls.skip(i as int).skip(1) =~= ls.skip(i + 1));
        }
        let (lo, hi) = trim_bounds(line.as_str());
        let ghost t = spec_trim(line@);
        if hi > lo && line.as_str().get_char(lo) != '#' {
            let trimmed = line.as_str().substring_char(lo, hi);
            proof {
                assert(trimmed@ =~= t);
            }
            match find_sub(trimmed, "=") {
                Some(p) => {
                    proof {
                        lemma_first_match_idx_some(t, "="@, 0, p as int);
                        assert(first_match_idx(t, seq!['='], 0) == p) by {
                            assert("="@ =~= seq!['=']) by {
                                reveal_strlit("=");
                            }
                        }
                    }
                    let tl: usize = trimmed.unicode_len();
                    proof {
                        reveal_strlit("=");
                        assert("="@.len() == 1);
                        assert(p + 1 <= tl);
                    }
                    let keypart = trimmed.substring_char(0, p);
                    proof {
                        assert(keypart@ =~= t.take(p as int));
                    }
                    let key = crate::text::trim_str(keypart);
                    let valpart = trimmed.substring_char(p + 1, tl);
                    proof {
                        assert(valpart@ =~= t.skip(p + 1));
                    }
                    let vt = crate::text::trim_str(valpart);
                    let vlen: usize = vt.as_str().unicode_len();
                    let value = if vlen >= 2 && ((vt.as_str().get_char(0) == '"'
                        && vt.as_str().get_char(vlen - 1) == '"') || (vt.as_str().get_char(0)
                        == '\'' && vt.as_str().get_char(vlen - 1) == '\'')) {
                        let inner = vt.as_str().substring_char(1, vlen - 1);
                        proof {
                            assert(inner@ =~= spec_unquote(vt@));
                        }
                        String::from_str(inner)
                    } else {
                        vt
                    };
                    out.push((key, value));
                    proof {
                        let ghost ps = spec_rc_pairs(ls);
                        assert(spec_rc_pairs(ls.skip(i as int)) == seq![
                            (spec_trim(t.take(p as int)), spec_unquote(spec_trim(t.skip(p + 1)))),
                        ] + spec_rc_pairs(ls.skip(i + 1)));
                        assert(out@.map_values(|q: (String, String)| (q.0@, q.1@)) =~= out0
                            .map_values(|q: (String, String)| (q.0@, q.1@)) + seq![
                            (spec_trim(t.take(p as int)), spec_unquote(spec_trim(t.skip(p + 1)))),
                        ]);
                        assert(ps =~= out@.map_values(|q: (String, String)| (q.0@, q.1@))
                            + spec_rc_pairs(ls.skip(i + 1)));
                    }
                },
                None => {
                    proof {
                        lemma_first_match_idx_none(t, "="@, 0);
                        assert(first_match_idx(t, seq!['='], 0) == -1) by {
                            assert("="@ =~= seq!['=']) by {
                                reveal_strlit("=");
                            }
                        }
                        assert(spec_rc_line(line@) is None);
                        assert(spec_rc_pairs(ls.skip(i as int)) =~= spec_rc_pairs(ls.skip(i + 1)));
                    }
                },
            }
        } else {
            proof {
                assert(spec_rc_line(line@) is None);
                assert(spec_rc_pairs(ls.skip(i as int)) =~= spec_rc_pairs(ls.skip(i + 1)));
            }
        }
        i = i + 1;
    }
    proof {
        assert(ls.skip(n as int) =~= Seq::<Seq<char>>::empty());
        assert(spec_rc_pairs(ls.skip(n as int)) =~= Seq::<(Seq<char>, Seq<char>)>::empty());
        assert(spec_rc_pairs(ls) =~= out@.map_values(|p: (String, String)| (p.0@, p.1@)));
        assert(forall|i: int|
            0 <= i < out@.len() ==> spec_rc_pairs(ls)[i] == (out@[i].0@, out@[i].1@));
    }
    out
}

/// The pairs as their views.
pub open spec fn pairs_view(m: Seq<(String, String)>) -> Seq<(Seq<char>, Seq<char>)> {
    m.map_values(|p: (String, String)| (p.0@, p.1@))
}

/// The value the settings give a key; the last assignment wins, as with
/// repeated keys in a map built by insertion.
pub open spec fn spec_lookup(pairs: Seq<(Seq<char>, Seq<char>)>, key: Seq<char>) -> Option<
    Seq<char>,
>
    decreases pairs.len(),
{
    if pairs.len() == 0 {
        None
    } else if pairs.last().0 == key {
        Some(pairs.last().1)
    } else {
        spec_lookup(pairs.drop_last(), key)
    }
}

/// Looks a key up among the parsed settings, last assignment first.
pub fn map_get(pairs: &Vec<(String, String)>, key: &str) -> (r: Option<String>)
    ensures
        match r {
            Some(v) => spec_lookup(pairs_view(pairs@), key@) == Some(v@),
            None => spec_lookup(pairs_view(pairs@), key@) is None,
        },
{
    let n = pairs.len();
    let mut i: usize = n;
    proof {
        assert(pairs_view(pairs@).take(n as int) =~= pairs_view(pairs@));
    }
    while i > 0
        invariant
            0 <= i <= n,
            n == pairs.len(),
            spec_lookup(pairs_view(pairs@), key@) == spec_lookup(
                pairs_view(pairs@).take(i as int),
                key@,
            ),
        decreases i,
    {
        proof {
            assert(pairs_view(pairs@).take(i as int).last() == pairs_view(pairs@)[i - 1]);
            assert(pairs_view(pairs@)[i - 1].0 == pairs@[i - 1].0@);
            assert(pairs_view(pairs@).take(i as int).drop_last() =~= pairs_view(pairs@).take(
                i - 1,
            ));
        }
        if str_eq(pairs[i - 1].0.as_str(), key) {
            return Some(pairs[i - 1].1.clone());
        }
        i = i - 1;
    }
    proof {
        assert(pairs_view(pairs@).take(0) =~= Seq::<(Seq<char>, Seq<char>)>::empty());
    }
    None
}

/// The value a numeric setting contributes: the parsed number, or the
/// default when the key is absent or unreadable.
pub open spec fn spec_num_setting(
    pairs: Seq<(Seq<char>, Seq<char>)>,
    key: Seq<char>,
    otherwise: u32,
) -> u32 {
    match spec_lookup(pairs, key) {
        Some(v) => match spec_parse_u32(v) {
            Some(n) => n,
            None => otherwise,
        },
        None => otherwise,
    }
}

/// The value a text setting contributes: the text, or the default when
/// the key is absent.
pub open spec fn spec_text_setting(
    pairs: Seq<(Seq<char>, Seq<char>)>,
    key: Seq<char>,
    otherwise: Seq<char>,
) -> Seq<char> {
    match spec_lookup(pairs, key) {
        Some(v) => v,
        None => otherwise,
    }
}

fn apply_text(cfg_field: &mut String, pairs: &Vec<(String, String)>, key: &str)
    ensures
        final(cfg_field)@ == spec_text_setting(pairs_view(pairs@), key@, old(cfg_field)@),
{
    match map_get(pairs, key) {
        Some(v) => {
            *cfg_field = v;
        },
        None => {},
    }
}

fn apply_num(cfg_field: &mut u32, pairs: &Vec<(String, String)>, key: &str)
    ensures
        *final(cfg_field) == spec_num_setting(pairs_view(pairs@), key@, *old(cfg_field)),
{
    match map_get(pairs, key) {
        Some(v) => match parse_u32(v.as_str()) {
            Some(n) => {
                *cfg_field = n;
            },
            None => {},
        },
        None => {},
    }
}

/// Applies the parsed settings onto a configuration: text settings
/// replace their fields, numeric settings replace theirs when they parse.
pub fn apply_map(cfg: &mut Config, map: &Vec<(String, String)>)
    ensures
        ({
            let ps = pairs_view(map@);
            &&& final(cfg).project_type@ == spec_text_setting(
                ps,
                "PROJECT_TYPE"@,
                old(cfg).project_type@,
            )
            &&& final(cfg).verify_command@ == spec_text_setting(
                ps,
                "VERIFY_COMMAND"@,
                old(cfg).verify_command@,
            )
            &&& final(cfg).test_command@ == spec_text_setting(
                ps,
                "TEST_COMMAND"@,
                old(cfg).test_command@,
            )
            &&& final(cfg).agent_bin@ == spec_text_setting(
                ps,
                "AGENT_BIN"@,
                old(cfg).agent_bin@,
            )
            &&& final(cfg).agent_model@ == spec_text_setting(
                ps,
                "AGENT_MODEL"@,
                old(cfg).agent_model@,
            )
            &&& final(cfg).agent_extra_args@ == spec_text_setting(
                ps,
                "AGENT_EXTRA_ARGS"@,
                old(cfg).agent_extra_args@,
            )
            &&& final(cfg).specs_dir@ == spec_text_setting(ps, "SPECS_DIR"@, old(cfg).specs_dir@)
            &&& final(cfg).session_dir@ == spec_text_setting(
                ps,
                "SESSION_DIR"@,
                old(cfg).session_dir@,
            )
            &&& final(cfg).max_loops == spec_num_setting(ps, "MAX_LOOPS"@, old(cfg).max_loops)
            &&& final(cfg).max_review_fix_loops == spec_num_setting(
                ps,
                "MAX_REVIEW_FIX_LOOPS"@,
                old(cfg).max_review_fix_loops,
            )
            &&& final(cfg).max_tasks_per_run == spec_num_setting(
                ps,
                "MAX_TASKS_PER_RUN"@,
                old(cfg).max_tasks_per_run,
            )
            &&& final(cfg).cb_no_progress_threshold == spec_num_setting(
                ps,
                "CB_NO_PROGRESS_THRESHOLD"@,
                old(cfg).cb_no_progress_threshold,
            )
            &&& final(cfg).cb_cooldown_minutes == spec_num_setting(
                ps,
                "CB_COOLDOWN_MINUTES"@,
                old(cfg).cb_cooldown_minutes,
            )
            &&& final(cfg).speclooprc@ == old(cfg).speclooprc@
        }),
{
    apply_text(&mut cfg.project_type, map, "PROJECT_TYPE");
    apply_text(&mut cfg.verify_command, map, "VERIFY_COMMAND");
    apply_text(&mut cfg.test_command, map, "TEST_COMMAND");
    apply_text(&mut cfg.agent_bin, map, "AGENT_BIN");
    apply_text(&mut cfg.agent_model, map, "AGENT_MODEL");
    apply_text(&mut cfg.agent_extra_args, map, "AGENT_EXTRA_ARGS");
    apply_text(&mut cfg.specs_dir, map, "SPECS_DIR");
    apply_text(&mut cfg.session_dir, map, "SESSION_DIR");
    apply_num(&mut cfg.max_loops, map, "MAX_LOOPS");
    apply_num(&mut cfg.max_review_fix_loops, map, "MAX_REVIEW_FIX_LOOPS");
    apply_num(&mut cfg.max_tasks_per_run, map, "MAX_TASKS_PER_RUN");
    apply_num(&mut cfg.cb_no_progress_threshold, map, "CB_NO_PROGRESS_THRESHOLD");
    apply_num(&mut cfg.cb_cooldown_minutes, map, "CB_COOLDOWN_MINUTES");
}

/// Applies the command-line overrides for a run: explicit limits replace
/// the configured ones, and a single-cycle request pins one loop and one
/// task.
pub fn apply_run_args(cfg: &mut Config, args: &RunArgs)
    ensures
        final(cfg).max_loops == (if args.once {
            1u32
        } else {
            match args.max_loops {
                Some(v) => v,
                None => old(cfg).max_loops,
            }
        }),
        final(cfg).max_review_fix_loops == (match args.max_review_fix_loops {
            Some(v) => v,
            None => old(cfg).max_review_fix_loops,
        }),
        final(cfg).max_tasks_per_run == (if args.once {
            1u32
        } else {
            match args.max_tasks {
                Some(v) => v,
                None => old(cfg).max_tasks_per_run,
            }
        }),
        final(cfg).session_dir@ == old(cfg).session_dir@,
        final(cfg).specs_dir@ == old(cfg).specs_dir@,
        final(cfg).cb_no_progress_threshold == old(cfg).cb_no_progress_threshold,
        final(cfg).cb_cooldown_minutes == old(cfg).cb_cooldown_minutes,
{
    match args.max_loops {
        Some(v) => {
            cfg.max_loops = v;
        },
        None => {},
    }
    match args.max_review_fix_loops {
        Some(v) => {
            cfg.max_review_fix_loops = v;
        },
        None => {},
    }
    match args.max_tasks {
        Some(v) => {
            cfg.max_tasks_per_run = v;
        },
        None => {},
    }
    if args.once {
        cfg.max_loops = 1;
        cfg.max_tasks_per_run = 1;
    }
}

/// Whether the file list names `name`.
pub open spec fn spec_has_file(files: Seq<Seq<char>>, name: Seq<char>) -> bool {
    exists|k: int| 0 <= k < files.len() && files[k] == name
}

fn has_file(files: &Vec<String>, name: &str) -> (r: bool)
    ensures
        r == spec_has_file(files.deep_view(), name@),
{
    let n = files.len();
    let mut i: usize = 0;
    while i < n
        invariant
            0 <= i <= n,
            n == files.len(),
            forall|k: int| 0 <= k < i ==> files.deep_view()[k] != name@,
        decreases n - i,
    {
        if str_eq(files[i].as_str(), name) {
            proof {
                assert(files.deep_view()[i as int] == files@[i as int]@);
            }
            return true;
        }
        proof {
            assert(files.deep_view()[i as int] == files@[i as int]@);
        }
        i = i + 1;
    }
    false
}

/// The project type the root files betray.
pub open spec fn spec_detect_project_type(files: Seq<Seq<char>>) -> Seq<char> {
    if spec_has_file(files, "tsconfig.json"@) {
        "typescript"@
    } else if spec_has_file(files, "package.json"@) {
        "javascript"@
    } else if spec_has_file(files, "pyproject.toml"@) || spec_has_file(files, "setup.py"@)
        || spec_has_file(files, "setup.cfg"@) {
        "python"@
    } else if spec_has_file(files, "Cargo.toml"@) {
        "rust"@
    } else if spec_has_file(files, "go.mod"@) {
        "go"@
    } else if spec_has_file(files, "Gemfile"@) {
        "ruby"@
    } else if spec_has_file(files, "build.gradle"@) || spec_has_file(files, "build.gradle.kts"@) {
        "java"@
    } else if spec_has_file(files, "Package.swift"@) {
        "swift"@
    } else {
        "generic"@
    }
}

/// Detects the project type from the names of the files present in the
/// project root.
pub fn detect_project_type(root_files: &Vec<String>) -> (r: String)
    ensures
        r@ == spec_detect_project_type(root_files.deep_view()),
{
    if has_file(root_files, "tsconfig.json") {
        String::from_str("typescript")
    } else if has_file(root_files, "package.json") {
        String::from_str("javascript")
    } else if has_file(root_files, "pyproject.toml") || has_file(root_files, "setup.py")
        || has_file(root_files, "setup.cfg") {
        String::from_str("python")
    } else if has_file(root_files, "Cargo.toml") {
        String::from_str("rust")
    } else if has_file(root_files, "go.mod") {
        String::from_str("go")
    } else if has_file(root_files, "Gemfile") {
        String::from_str("ruby")
    } else if has_file(root_files, "build.gradle") || has_file(root_files, "build.gradle.kts") {
        String::from_str("java")
    } else if has_file(root_files, "Package.swift") {
        String::from_str("swift")
    } else {
        String::from_str("generic")
    }
}

/// The verification command a project type suggests.
pub open spec fn spec_detect_verify_command(project_type: Seq<char>) -> Seq<char> {
    if project_type == "typescript"@ {
        "npm run lint && npm run typecheck"@
    } else if project_type == "javascript"@ {
        "npm run lint"@
    } else if project_type == "python"@ {
        "python -m py_compile"@
    } else if project_type == "rust"@ {
        "cargo clippy && cargo check"@
    } else if project_type == "go"@ {
        "go vet ./..."@
    } else if project_type == "ruby"@ {
        "bundle exec rubocop"@
    } else if project_type == "java"@ {
        "./gradlew check"@
    } else if project_type == "swift"@ {
        "swift build"@
    } else {
        Seq::empty()
    }
}

pub fn detect_verify_command(project_type: &str) -> (r: String)
    ensures
        r@ == spec_detect_verify_command(project_type@),
{
    if str_eq(project_type, "typescript") {
        String::from_str("npm run lint && npm run typecheck")
    } else if str_eq(project_type, "javascript") {
        String::from_str("npm run lint")
    } else if str_eq(project_type, "python") {
        String::from_str("python -m py_compile")
    } else if str_eq(project_type, "rust") {
        String::from_str("cargo clippy && cargo check")
    } else if str_eq(project_type, "go") {
        String::from_str("go vet ./...")
    } else if str_eq(project_type, "ruby") {
        String::from_str("bundle exec rubocop")
    } else if str_eq(project_type, "java") {
        String::from_str("./gradlew check")
    } else if str_eq(project_type, "swift") {
        String::from_str("swift build")
    } else {
        String::new()
    }
}

/// The test command a project type suggests.
pub open spec fn spec_detect_test_command(project_type: Seq<char>) -> Seq<char> {
    if project_type == "typescript"@ || project_type == "javascript"@ {
        "npm test"@
    } else if project_type == "python"@ {
        "python -m pytest"@
    } else if project_type == "rust"@ {
        "cargo test"@
    } else if project_type == "go"@ {
        "go test ./..."@
    } else if project_type == "ruby"@ {
        "bundle exec rspec"@
    } else if project_type == "java"@ {
        "./gradlew test"@
    } else if project_type == "swift"@ {
        "swift test"@
    } else {
        Seq::empty()
    }
}

pub fn detect_test_command(project_type: &str) -> (r: String)
    ensures
        r@ == spec_detect_test_command(project_type@),
{
    if str_eq(project_type, "typescript") || str_eq(project_type, "javascript") {
        String::from_str("npm test")
    } else if str_eq(project_type, "python") {
        String::from_str("python -m pytest")
    } else if str_eq(project_type, "rust") {
        String::from_str("cargo test")
    } else if str_eq(project_type, "go") {
        String::from_str("go test ./...")
    } else if str_eq(project_type, "ruby") {
        String::from_str("bundle exec rspec")
    } else if str_eq(project_type, "java") {
        String::from_str("./gradlew test")
    } else if str_eq(project_type, "swift") {
        String::from_str("swift test")
    } else {
        String::new()
    }
}

} // verus!
