//! Small verified rendering helpers: durations, costs and slugs.

use vstd::prelude::*;
use vstd::string::*;
use crate::text::{push_char, spec_dec, u64_to_dec};

verus! {

/// How a duration reads in the logs: seconds under a minute, minutes and
/// seconds under an hour, hours and minutes beyond.
pub open spec fn spec_format_duration(secs: u64) -> Seq<char> {
    if secs < 60 {
        spec_dec(secs as nat) + "s"@
    } else if secs < 3600 {
        spec_dec((secs / 60) as nat) + "m "@ + spec_dec((secs % 60) as nat) + "s"@
    } else {
        spec_dec((secs / 3600) as nat) + "h "@ + spec_dec(((secs % 3600) / 60) as nat) + "m"@
    }
}

/// Renders a duration in seconds for the logs.
pub fn format_duration(secs: u64) -> (r: String)
    ensures
        r@ == spec_format_duration(secs),
{
    if secs < 60 {
        let mut r = u64_to_dec(secs);
        r.append("s");
        r
    } else if secs < 3600 {
        let mut r = u64_to_dec(secs / 60);
        r.append("m ");
        let s = u64_to_dec(secs % 60);
        r.append(s.as_str());
        r.append("s");
        proof {
            assert(r@ =~= spec_format_duration(secs));
        }
        r
    } else {
        let mut r = u64_to_dec(secs / 3600);
        r.append("h ");
        let s = u64_to_dec((secs % 3600) / 60);
        r.append(s.as_str());
        r.append("m");
        proof {
            assert(r@ =~= spec_format_duration(secs));
        }
        r
    }
}

/// A cost in micro-dollars rounded to whole cents, half up.
pub open spec fn spec_cents_of(microusd: u64) -> int {
    (microusd + 5000) / 10000
}

/// How a cost reads in the logs: dollars and two cent digits.
pub open spec fn spec_format_cost(microusd: u64) -> Seq<char> {
    let cents = spec_cents_of(microusd);
    let whole = cents / 100;
    let frac = cents % 100;
    "$"@ + spec_dec(whole as nat) + "."@ + (if frac < 10 {
        "0"@ + spec_dec(frac as nat)
    } else {
        spec_dec(frac as nat)
    })
}

/// Renders a cost held in micro-dollars as dollars and cents.
pub fn format_cost(microusd: u64) -> (r: String)
    ensures
        r@ == spec_format_cost(microusd),
{
    let cents: u64 = (((microusd as u128) + 5000) / 10000) as u64;
    proof {
        assert(cents == spec_cents_of(microusd)) by {
            assert((microusd as u128 + 5000) / 10000 <= u64::MAX as u128) by (nonlinear_arith);
        }
    }
    let mut r = String::from_str("$");
    let w = u64_to_dec(cents / 100);
    r.append(w.as_str());
    r.append(".");
    let frac = cents % 100;
    if frac < 10 {
        r.append("0");
    }
    let f = u64_to_dec(frac);
    r.append(f.as_str());
    proof {
        assert(r@ =~= spec_format_cost(microusd));
    }
    r
}

/// ASCII lower-casing of one character; anything but `A`-`Z` passes
/// through.
pub open spec fn spec_lower_char(c: char) -> char {
    if 65 <= c as int && c as int <= 90 {
        if c == 'A' {
            'a'
        } else if c == 'B' {
            'b'
        } else if c == 'C' {
            'c'
        } else if c == 'D' {
            'd'
        } else if c == 'E' {
            'e'
        } else if c == 'F' {
            'f'
        } else if c == 'G' {
            'g'
        } else if c == 'H' {
            'h'
        } else if c == 'I' {
            'i'
        } else if c == 'J' {
            'j'
        } else if c == 'K' {
            'k'
        } else if c == 'L' {
            'l'
        } else if c == 'M' {
            'm'
        } else if c == 'N' {
            'n'
        } else if c == 'O' {
            'o'
        } else if c == 'P' {
            'p'
        } else if c == 'Q' {
            'q'
        } else if c == 'R' {
            'r'
        } else if c == 'S' {
            's'
        } else if c == 'T' {
            't'
        } else if c == 'U' {
            'u'
        } else if c == 'V' {
            'v'
        } else if c == 'W' {
            'w'
        } else if c == 'X' {
            'x'
        } else if c == 'Y' {
            'y'
        } else {
            'z'
        }
    } else {
        c
    }
}

fn lower_char(c: char) -> (r: char)
    ensures
        r == spec_lower_char(c),
{
    match c {
        'A' => 'a',
        'B' => 'b',
        'C' => 'c',
        'D' => 'd',
        'E' => 'e',
        'F' => 'f',
        'G' => 'g',
        'H' => 'h',
        'I' => 'i',
        'J' => 'j',
        'K' => 'k',
        'L' => 'l',
        'M' => 'm',
        'N' => 'n',
        'O' => 'o',
        'P' => 'p',
        'Q' => 'q',
        'R' => 'r',
        'S' => 's',
        'T' => 't',
        'U' => 'u',
        'V' => 'v',
        'W' => 'w',
        'X' => 'x',
        'Y' => 'y',
        'Z' => 'z',
        _ => c,
    }
}

/// A character a slug may keep: ASCII lower-case letters, digits, dot,
/// underscore and dash.
pub open spec fn is_slug_char(c: char) -> bool {
    (97 <= c as int && c as int <= 122) || (48 <= c as int && c as int <= 57) || c == '.' || c
        == '_' || c == '-'
}

fn slug_char(c: char) -> (r: bool)
    ensures
        r == is_slug_char(c),
{
    let u = c as u32;
    (97 <= u && u <= 122) || (48 <= u && u <= 57) || c == '.' || c == '_' || c == '-'
}

/// The lower-cased text with every run of non-slug characters collapsed
/// into one dash. `prev_bad` says whether a run is already open.
pub open spec fn spec_slug_core(s: Seq<char>, i: int, prev_bad: bool) -> Seq<char>
    decreases s.len() - i,
{
    if i < 0 || i >= s.len() {
        Seq::empty()
    } else {
        let c = spec_lower_char(s[i]);
        if is_slug_char(c) {
            seq![c] + spec_slug_core(s, i + 1, false)
        } else if prev_bad {
            spec_slug_core(s, i + 1, true)
        } else {
            seq!['-'] + spec_slug_core(s, i + 1, true)
        }
    }
}

/// Index of the first non-dash character at or after `i`, or `s.len()`.
pub open spec fn dash_prefix_end(s: Seq<char>, i: int) -> int
    decreases s.len() - i,
{
    if 0 <= i < s.len() && s[i] == '-' {
        dash_prefix_end(s, i + 1)
    } else {
        i
    }
}

/// Index just past the last non-dash character strictly before `i`.
pub open spec fn dash_suffix_start(s: Seq<char>, i: int) -> int
    decreases i,
{
    if 0 < i <= s.len() && s[i - 1] == '-' {
        dash_suffix_start(s, i - 1)
    } else {
        i
    }
}

/// The dash-collapsed text with leading and trailing dashes removed.
pub open spec fn spec_slug_trimmed(s: Seq<char>) -> Seq<char> {
    let t = spec_slug_core(s, 0, false);
    if dash_prefix_end(t, 0) == t.len() {
        Seq::empty()
    } else {
        t.subrange(dash_prefix_end(t, 0), dash_suffix_start(t, t.len() as int))
    }
}

/// The slug a name turns into: lower-cased, runs of foreign characters
/// collapsed into one dash, dashes trimmed from both ends, and `session`
/// when nothing is left.
pub open spec fn spec_slugify(s: Seq<char>) -> Seq<char> {
    if spec_slug_trimmed(s).len() == 0 {
        "session"@
    } else {
        spec_slug_trimmed(s)
    }
}

proof fn lemma_dash_suffix_start_above(s: Seq<char>, i: int, k: int)
    requires
        0 <= k < i <= s.len(),
        s[k] != '-',
    ensures
        dash_suffix_start(s, i) > k,
    decreases i,
{
    if 0 < i && s[i - 1] == '-' {
        lemma_dash_suffix_start_above(s, i - 1, k);
    }
}

proof fn lemma_dash_suffix_start_bounds(s: Seq<char>, i: int)
    requires
        0 <= i <= s.len(),
    ensures
        0 <= dash_suffix_start(s, i) <= i,
    decreases i,
{
    if 0 < i && s[i - 1] == '-' {
        lemma_dash_suffix_start_bounds(s, i - 1);
    }
}

/// Derives a file-system friendly slug from a name.
pub fn slugify(s: &str) -> (r: String)
    ensures
        r@ == spec_slugify(s@),
{
    let n: usize = s.unicode_len();
    let mut out = String::new();
    let mut prev_bad = false;
    let mut i: usize = 0;
    proof {
        assert(out@ + spec_slug_core(s@, 0, false) =~= spec_slug_core(s@, 0, false));
    }
    while i < n
        invariant
            0 <= i <= n,
            n == s@.len(),
            spec_slug_core(s@, 0, false) == out@ + spec_slug_core(s@, i as int, prev_bad),
        decreases n - i,
    {
        let ghost out0 = out@;
        let c = lower_char(s.get_char(i));
        if slug_char(c) {
            push_char(&mut out, c);
            prev_bad = false;
            proof {
                assert(out@ =~= out0 + seq![c]);
                assert(out0 + seq![c] + spec_slug_core(s@, i + 1, false) =~= out0 + (seq![c]
                    + spec_slug_core(s@, i + 1, false)));
            }
        } else if prev_bad {
        } else {
            push_char(&mut out, '-');
            prev_bad = true;
            proof {
                assert(out@ =~= out0 + seq!['-']);
                assert(out0 + seq!['-'] + spec_slug_core(s@, i + 1, true) =~= out0 + (seq!['-']
                    + spec_slug_core(s@, i + 1, true)));
            }
        }
        i = i + 1;
    }
    proof {
        assert(spec_slug_core(s@, n as int, prev_bad) =~= Seq::<char>::empty());
        assert(out@ =~= out@ + spec_slug_core(s@, n as int, prev_bad));
    }
    let ghost t = spec_slug_core(s@, 0, false);
    let m: usize = out.as_str().unicode_len();
    let mut lo: usize = 0;
    while lo < m && out.as_str().get_char(lo) == '-'
        invariant
            0 <= lo <= m,
            m == out@.len(),
            out@ == t,
            dash_prefix_end(t, 0) == dash_prefix_end(t, lo as int),
        decreases m - lo,
    {
        lo = lo + 1;
    }
    assert(dash_prefix_end(t, lo as int) == lo as int);
    if lo == m {
        proof {
            assert(spec_slug_trimmed(s@) =~= Seq::<char>::empty());
        }
        return String::from_str("session");
    }
    let mut hi: usize = m;
    proof {
        lemma_dash_suffix_start_bounds(t, m as int);
    }
    while hi > lo && out.as_str().get_char(hi - 1) == '-'
        invariant
            lo <= hi <= m,
            m == out@.len(),
            out@ == t,
            lo == dash_prefix_end(t, 0),
            lo < m,
            t[lo as int] != '-',
            dash_suffix_start(t, m as int) == dash_suffix_start(t, hi as int),
        decreases hi,
    {
        hi = hi - 1;
    }
    proof {
        if hi > lo {
            assert(dash_suffix_start(t, hi as int) == hi as int);
        } else {
            lemma_dash_suffix_start_bounds(t, hi as int);
            lemma_dash_suffix_start_above(t, m as int, lo as int);
            assert(false);
        }
        assert(spec_slug_trimmed(s@) == t.subrange(lo as int, hi as int));
        assert(spec_slug_trimmed(s@).len() > 0);
    }
    let part = out.as_str().substring_char(lo, hi);
    String::from_str(part)
}

/// `true` or `false`, as the run logs spell flags.
pub open spec fn spec_bool_str(b: bool) -> Seq<char> {
    if b {
        "true"@
    } else {
        "false"@
    }
}

pub fn bool_str(b: bool) -> (r: &'static str)
    ensures
        r@ == spec_bool_str(b),
{
    if b {
        "true"
    } else {
        "false"
    }
}

} // verus!
