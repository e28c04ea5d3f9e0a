//! Verified text primitives shared by the tracker, the agent-output parser
//! and the log builders: whitespace trimming, substring search,
//! case-insensitive comparison and decimal conversions, all specified over
//! `Seq<char>` views.

use vstd::prelude::*;
use vstd::string::*;

verus! {

/// The whitespace characters the library recognises when it trims text:
/// space, tab, line feed, carriage return, vertical tab and form feed.
pub open spec fn is_space_char(c: char) -> bool {
    c == ' ' || c == '\t' || c == '\n' || c == '\r' || c == '\u{b}' || c == '\u{c}'
}

pub fn is_space(c: char) -> (r: bool)
    ensures
        r == is_space_char(c),
{
    c == ' ' || c == '\t' || c == '\n' || c == '\r' || c == '\u{b}' || c == '\u{c}'
}

/// Index of the first non-space character at or after `i`, or `s.len()`.
pub open spec fn space_prefix_end(s: Seq<char>, i: int) -> int
    decreases s.len() - i,
{
    if 0 <= i < s.len() && is_space_char(s[i]) {
        space_prefix_end(s, i + 1)
    } else {
        i
    }
}

/// Index just past the last non-space character strictly before `i`,
/// scanning backwards, or `i` itself if `s[i-1]` is not a space.
pub open spec fn space_suffix_start(s: Seq<char>, i: int) -> int
    decreases i,
{
    if 0 < i <= s.len() && is_space_char(s[i - 1]) {
        space_suffix_start(s, i - 1)
    } else {
        i
    }
}

/// The trimmed form of `s`: both ends stripped of whitespace.
pub open spec fn spec_trim(s: Seq<char>) -> Seq<char> {
    if space_prefix_end(s, 0) == s.len() {
        Seq::empty()
    } else {
        s.subrange(space_prefix_end(s, 0), space_suffix_start(s, s.len() as int))
    }
}

pub proof fn lemma_space_prefix_end_bounds(s: Seq<char>, i: int)
    requires
        0 <= i <= s.len(),
    ensures
        i <= space_prefix_end(s, i) <= s.len(),
        forall|k: int| i <= k < space_prefix_end(s, i) ==> is_space_char(s[k]),
        space_prefix_end(s, i) < s.len() ==> !is_space_char(s[space_prefix_end(s, i)]),
    decreases s.len() - i,
{
    if i < s.len() && is_space_char(s[i]) {
        lemma_space_prefix_end_bounds(s, i + 1);
    }
}

pub proof fn lemma_space_suffix_start_bounds(s: Seq<char>, i: int)
    requires
        0 <= i <= s.len(),
    ensures
        0 <= space_suffix_start(s, i) <= i,
        forall|k: int| space_suffix_start(s, i) <= k < i ==> is_space_char(s[k]),
        space_suffix_start(s, i) > 0 ==> !is_space_char(s[space_suffix_start(s, i) - 1]),
    decreases i,
{
    if 0 < i && is_space_char(s[i - 1]) {
        lemma_space_suffix_start_bounds(s, i - 1);
    }
}

/// If some position `k < i` holds a non-space character, the backward scan
/// from `i` stops strictly after `k`.
pub proof fn lemma_space_suffix_start_above(s: Seq<char>, i: int, k: int)
    requires
        0 <= k < i <= s.len(),
        !is_space_char(s[k]),
    ensures
        space_suffix_start(s, i) > k,
    decreases i,
{
    if 0 < i && is_space_char(s[i - 1]) {
        lemma_space_suffix_start_above(s, i - 1, k);
    }
}

/// Computes the bounds of the trimmed region of `s`:
/// `spec_trim(s@) == s@.subrange(lo, hi)`.
pub fn trim_bounds(s: &str) -> (r: (usize, usize))
    ensures
        0 <= r.0 <= r.1 <= s@.len(),
        r.0 == space_prefix_end(s@, 0),
        spec_trim(s@) == s@.subrange(r.0 as int, r.1 as int),
{
    let n: usize = s.unicode_len();
    let mut lo: usize = 0;
    while lo < n && is_space(s.get_char(lo))
        invariant
            0 <= lo <= n,
            n == s@.len(),
            space_prefix_end(s@, 0) == space_prefix_end(s@, lo as int),
        decreases n - lo,
    {
        lo = lo + 1;
    }
    assert(space_prefix_end(s@, lo as int) == lo as int);
    if lo == n {
        assert(spec_trim(s@) == s@.subrange(lo as int, lo as int)) by {
            assert(spec_trim(s@) == Seq::<char>::empty());
            assert(s@.subrange(lo as int, lo as int) =~= Seq::<char>::empty());
        }
        return (lo, lo);
    }
    let mut hi: usize = n;
    while hi > lo && is_space(s.get_char(hi - 1))
        invariant
            lo <= hi <= n,
            n == s@.len(),
            lo == space_prefix_end(s@, 0),
            lo < n,
            !is_space_char(s@[lo as int]),
            space_suffix_start(s@, n as int) == space_suffix_start(s@, hi as int),
        decreases hi,
    {
        hi = hi - 1;
    }
    proof {
        if hi > lo {
            assert(space_suffix_start(s@, hi as int) == hi as int);
        } else {
            assert(hi == lo);
            lemma_space_suffix_start_bounds(s@, hi as int);
            lemma_space_suffix_start_above(s@, n as int, lo as int);
            assert(false);
        }
    }
    (lo, hi)
}

/// Trims whitespace from both ends of `s`.
pub fn trim_str(s: &str) -> (r: String)
    ensures
        r@ == spec_trim(s@),
{
    let (lo, hi) = trim_bounds(s);
    let part = s.substring_char(lo, hi);
    String::from_str(part)
}

/// `s` matches `pat` starting at position `i`.
pub open spec fn match_at(s: Seq<char>, pat: Seq<char>, i: int) -> bool {
    0 <= i && i + pat.len() <= s.len() && s.subrange(i, i + pat.len()) == pat
}

/// `pat` occurs somewhere inside `s`.
pub open spec fn spec_contains(s: Seq<char>, pat: Seq<char>) -> bool {
    exists|i: int| match_at(s, pat, i)
}

/// Compares the region `s[i..i+pat.len()]` with `pat`.
pub fn eq_at(s: &str, i: usize, pat: &str) -> (r: bool)
    requires
        i + pat@.len() <= s@.len(),
        i + pat@.len() <= usize::MAX,
    ensures
        r == match_at(s@, pat@, i as int),
{
    let m: usize = pat.unicode_len();
    let mut k: usize = 0;
    while k < m
        invariant
            0 <= k <= m,
            m == pat@.len(),
            i + m <= s@.len(),
            i + m <= usize::MAX,
            forall|j: int| 0 <= j < k ==> s@[i + j] == pat@[j],
        decreases m - k,
    {
        if s.get_char(i + k) != pat.get_char(k) {
            assert(s@.subrange(i as int, i + m) != pat@) by {
                assert(s@.subrange(i as int, i + m)[k as int] == s@[i + k]);
            }
            return false;
        }
        k = k + 1;
    }
    assert(s@.subrange(i as int, i + m) =~= pat@);
    true
}

/// Finds the first occurrence of `pat` in `s`.
pub fn find_sub(s: &str, pat: &str) -> (r: Option<usize>)
    ensures
        match r {
            Some(i) => match_at(s@, pat@, i as int) && forall|j: int|
                0 <= j < i ==> !match_at(s@, pat@, j),
            None => !spec_contains(s@, pat@),
        },
{
    let n: usize = s.unicode_len();
    let m: usize = pat.unicode_len();
    if m > n {
        assert(forall|i: int| !match_at(s@, pat@, i));
        return None;
    }
    if m == 0 {
        proof {
            assert(s@.subrange(0, 0) =~= pat@);
        }
        return Some(0);
    }
    let mut i: usize = 0;
    while i <= n - m
        invariant
            0 <= i <= n - m + 1,
            1 <= m <= n,
            n == s@.len(),
            m == pat@.len(),
            forall|j: int| 0 <= j < i ==> !match_at(s@, pat@, j),
        decreases n - m + 1 - i,
    {
        if eq_at(s, i, pat) {
            return Some(i);
        }
        i = i + 1;
    }
    assert(forall|j: int| !match_at(s@, pat@, j)) by {
        assert(forall|j: int| j + m > n ==> !match_at(s@, pat@, j));
    }
    None
}

/// Whether `pat` occurs inside `s`.
pub fn contains_sub(s: &str, pat: &str) -> (r: bool)
    ensures
        r == spec_contains(s@, pat@),
{
    match find_sub(s, pat) {
        Some(_) => true,
        None => false,
    }
}

/// Whether `s` begins with `pat`.
pub fn starts_with_str(s: &str, pat: &str) -> (r: bool)
    ensures
        r == match_at(s@, pat@, 0),
{
    let n: usize = s.unicode_len();
    let m: usize = pat.unicode_len();
    if m > n {
        return false;
    }
    eq_at(s, 0, pat)
}

/// Whether two strings hold the same characters.
pub fn str_eq(a: &str, b: &str) -> (r: bool)
    ensures
        r == (a@ == b@),
{
    let n: usize = a.unicode_len();
    let m: usize = b.unicode_len();
    if n != m {
        return false;
    }
    let r = eq_at(a, 0, b);
    proof {
        if r {
            assert(a@.subrange(0, m as int) =~= a@);
        } else {
            assert(a@.subrange(0, m as int) =~= a@);
        }
    }
    r
}

/// Index of the first occurrence of `pat` in `s` at or after `i`, or `-1`.
pub open spec fn first_match_idx(s: Seq<char>, pat: Seq<char>, i: int) -> int
    decreases s.len() + 1 - i,
{
    if i < 0 || i + pat.len() > s.len() {
        -1
    } else if s.subrange(i, i + pat.len()) == pat {
        i
    } else {
        first_match_idx(s, pat, i + 1)
    }
}

/// A found match with nothing before it pins down `first_match_idx`.
pub proof fn lemma_first_match_idx_some(s: Seq<char>, pat: Seq<char>, k: int, i: int)
    requires
        0 <= k <= i,
        match_at(s, pat, i),
        forall|j: int| k <= j < i ==> !match_at(s, pat, j),
    ensures
        first_match_idx(s, pat, k) == i,
    decreases i - k,
{
    if k < i {
        assert(!match_at(s, pat, k));
        assert(k + pat.len() <= s.len());
        assert(s.subrange(k, k + pat.len()) != pat);
        lemma_first_match_idx_some(s, pat, k + 1, i);
    } else {
        assert(match_at(s, pat, i));
    }
}

/// No match anywhere means `first_match_idx` reports `-1`.
pub proof fn lemma_first_match_idx_none(s: Seq<char>, pat: Seq<char>, k: int)
    requires
        0 <= k,
        forall|j: int| !match_at(s, pat, j),
    ensures
        first_match_idx(s, pat, k) == -1,
    decreases s.len() + 1 - k,
{
    if k + pat.len() <= s.len() {
        if s.subrange(k, k + pat.len()) == pat {
            assert(match_at(s, pat, k));
        }
        lemma_first_match_idx_none(s, pat, k + 1);
    }
}

/// Index of the first whitespace character at or after `i`, or `s.len()`.
pub open spec fn nonspace_prefix_end(s: Seq<char>, i: int) -> int
    decreases s.len() - i,
{
    if 0 <= i < s.len() && !is_space_char(s[i]) {
        nonspace_prefix_end(s, i + 1)
    } else {
        i
    }
}

/// The first whitespace-delimited token of `s`, empty when `s` holds only
/// whitespace.
pub open spec fn first_token(s: Seq<char>) -> Seq<char> {
    let a = space_prefix_end(s, 0);
    s.subrange(a, nonspace_prefix_end(s, a))
}

/// Index of the first whitespace character at or after `from`.
pub fn token_end_from(s: &str, from: usize) -> (j: usize)
    requires
        from <= s@.len(),
    ensures
        j == nonspace_prefix_end(s@, from as int),
        from <= j <= s@.len(),
{
    let n: usize = s.unicode_len();
    let mut i: usize = from;
    while i < n && !is_space(s.get_char(i))
        invariant
            from <= i <= n,
            n == s@.len(),
            nonspace_prefix_end(s@, from as int) == nonspace_prefix_end(s@, i as int),
        decreases n - i,
    {
        i = i + 1;
    }
    i
}

/// `c` equals `l` up to ASCII case, where `l` is the lower-case side.
pub open spec fn lower_char_eq(c: char, l: char) -> bool {
    c == l || (65 <= c as int && c as int <= 90 && c as int + 32 == l as int)
}

/// `s` equals `t` up to ASCII case, where `t` is already lower case.
pub open spec fn lower_eq(s: Seq<char>, t: Seq<char>) -> bool {
    s.len() == t.len() && forall|i: int| 0 <= i < s.len() ==> lower_char_eq(s[i], t[i])
}

pub fn char_lower_eq(c: char, l: char) -> (r: bool)
    ensures
        r == lower_char_eq(c, l),
{
    if c == l {
        true
    } else {
        let u = c as u32;
        65 <= u && u <= 90 && u + 32 == l as u32
    }
}

/// Compares the region `s[lo..hi]` with `t` up to ASCII case
/// (`t` lower case).
pub fn region_lower_eq(s: &str, lo: usize, hi: usize, t: &str) -> (r: bool)
    requires
        lo <= hi <= s@.len(),
    ensures
        r == lower_eq(s@.subrange(lo as int, hi as int), t@),
{
    let m: usize = t.unicode_len();
    if hi - lo != m {
        return false;
    }
    let mut k: usize = 0;
    while k < m
        invariant
            0 <= k <= m,
            m == t@.len(),
            lo <= hi <= s@.len(),
            hi - lo == m,
            forall|j: int| 0 <= j < k ==> lower_char_eq(s@[lo + j], t@[j]),
        decreases m - k,
    {
        if !char_lower_eq(s.get_char(lo + k), t.get_char(k)) {
            assert(!lower_eq(s@.subrange(lo as int, hi as int), t@)) by {
                assert(s@.subrange(lo as int, hi as int)[k as int] == s@[lo + k]);
            }
            return false;
        }
        k = k + 1;
    }
    assert(lower_eq(s@.subrange(lo as int, hi as int), t@)) by {
        assert(forall|j: int|
            0 <= j < m ==> s@.subrange(lo as int, hi as int)[j] == s@[lo + j]);
    }
    true
}

/// The character for a single decimal digit.
pub open spec fn spec_digit(d: int) -> char {
    if d == 0 {
        '0'
    } else if d == 1 {
        '1'
    } else if d == 2 {
        '2'
    } else if d == 3 {
        '3'
    } else if d == 4 {
        '4'
    } else if d == 5 {
        '5'
    } else if d == 6 {
        '6'
    } else if d == 7 {
        '7'
    } else if d == 8 {
        '8'
    } else {
        '9'
    }
}

/// The decimal rendering of `n`, most significant digit first.
pub open spec fn spec_dec(n: nat) -> Seq<char>
    decreases n,
{
    if n < 10 {
        seq![spec_digit(n as int)]
    } else {
        spec_dec(n / 10).push(spec_digit((n % 10) as int))
    }
}

fn digit_char(d: u64) -> (c: char)
    requires
        d < 10,
    ensures
        c == spec_digit(d as int),
{
    if d == 0 {
        '0'
    } else if d == 1 {
        '1'
    } else if d == 2 {
        '2'
    } else if d == 3 {
        '3'
    } else if d == 4 {
        '4'
    } else if d == 5 {
        '5'
    } else if d == 6 {
        '6'
    } else if d == 7 {
        '7'
    } else if d == 8 {
        '8'
    } else {
        '9'
    }
}

/// Relies on `String::push`: appends the given character to the end of
/// the string.
#[verifier::external_body]
pub fn push_char(s: &mut String, c: char)
    ensures
        final(s)@ == old(s)@.push(c),
{
    s.push(c);
}

/// Renders `n` in decimal.
pub fn u64_to_dec(n: u64) -> (r: String)
    ensures
        r@ == spec_dec(n as nat),
    decreases n,
{
    if n < 10 {
        let mut r = String::new();
        push_char(&mut r, digit_char(n));
        proof {
            assert(r@ =~= spec_dec(n as nat));
        }
        r
    } else {
        let mut r = u64_to_dec(n / 10);
        push_char(&mut r, digit_char(n % 10));
        r
    }
}

pub open spec fn is_digit_char(c: char) -> bool {
    48 <= c as int && c as int <= 57
}

pub open spec fn digit_val(c: char) -> int {
    c as int - 48
}

pub open spec fn all_digits(s: Seq<char>) -> bool {
    forall|i: int| 0 <= i < s.len() ==> is_digit_char(s[i])
}

/// The numeric value of a digit string, most significant digit first.
pub open spec fn dec_val(s: Seq<char>) -> int
    decreases s.len(),
{
    if s.len() == 0 {
        0
    } else {
        dec_val(s.drop_last()) * 10 + digit_val(s.last())
    }
}

pub proof fn lemma_dec_val_nonneg(s: Seq<char>)
    requires
        all_digits(s),
    ensures
        dec_val(s) >= 0,
    decreases s.len(),
{
    if s.len() > 0 {
        assert(all_digits(s.drop_last()));
        lemma_dec_val_nonneg(s.drop_last());
    }
}

/// Extending a digit string never decreases its value.
pub proof fn lemma_dec_val_prefix(s: Seq<char>, i: int)
    requires
        all_digits(s),
        0 <= i <= s.len(),
    ensures
        dec_val(s.take(i)) <= dec_val(s),
    decreases s.len() - i,
{
    if i < s.len() {
        assert(all_digits(s.take(i)));
        lemma_dec_val_nonneg(s.take(i));
        assert(s.take(i + 1).drop_last() =~= s.take(i));
        assert(s.take(i + 1).last() == s[i]);
        lemma_dec_val_prefix(s, i + 1);
    } else {
        assert(s.take(i) =~= s);
    }
}

/// What `str::parse::<u32>` accepts: an optional leading `+`, then one or
/// more decimal digits whose value fits in `u32`.
pub open spec fn spec_parse_u32(s: Seq<char>) -> Option<u32> {
    let d = if s.len() > 0 && s[0] == '+' {
        s.skip(1)
    } else {
        s
    };
    if d.len() > 0 && all_digits(d) && dec_val(d) <= u32::MAX {
        Some(dec_val(d) as u32)
    } else {
        None
    }
}

/// Parses a decimal `u32`, accepting an optional leading `+`.
pub fn parse_u32(s: &str) -> (r: Option<u32>)
    ensures
        r == spec_parse_u32(s@),
{
    let n: usize = s.unicode_len();
    let b: usize = if n > 0 && s.get_char(0) == '+' {
        1
    } else {
        0
    };
    let ghost d = if s@.len() > 0 && s@[0] == '+' {
        s@.skip(1)
    } else {
        s@
    };
    proof {
        assert(d =~= s@.subrange(b as int, n as int));
    }
    if b == n {
        return None;
    }
    let mut acc: u64 = 0;
    let mut i: usize = b;
    while i < n
        invariant
            b <= i <= n,
            b <= 1,
            n == s@.len(),
            d == s@.subrange(b as int, n as int),
            d == (if s@.len() > 0 && s@[0] == '+' {
                s@.skip(1)
            } else {
                s@
            }),
            acc <= u32::MAX,
            all_digits(d.take(i - b)),
            acc == dec_val(d.take(i - b)),
        decreases n - i,
    {
        let c = s.get_char(i);
        let u = c as u32;
        if u < 48 || u > 57 {
            proof {
                assert(d[i - b] == s@[i as int]);
                assert(!all_digits(d));
            }
            return None;
        }
        let dv: u64 = (u - 48) as u64;
        let next: u64 = acc * 10 + dv;
        proof {
            assert(d.take(i - b + 1).drop_last() =~= d.take(i - b));
            assert(d.take(i - b + 1).last() == s@[i as int]);
        }
        if next > 0xffff_ffff {
            proof {
                if all_digits(d) {
                    lemma_dec_val_prefix(d, i - b + 1);
                }
            }
            return None;
        }
        acc = next;
        i = i + 1;
    }
    proof {
        assert(d.take(n - b) =~= d);
    }
    Some(acc as u32)
}

/// `s` repeated `n` times.
pub open spec fn spec_repeat(s: Seq<char>, n: nat) -> Seq<char>
    decreases n,
{
    if n == 0 {
        Seq::empty()
    } else {
        spec_repeat(s, (n - 1) as nat) + s
    }
}

/// Builds `s` repeated `n` times.
pub fn repeat_str(s: &str, n: usize) -> (r: String)
    ensures
        r@ == spec_repeat(s@, n as nat),
{
    let mut r = String::new();
    proof {
        assert(r@ =~= spec_repeat(s@, 0));
    }
    let mut i: usize = 0;
    while i < n
        invariant
            0 <= i <= n,
            r@ == spec_repeat(s@, i as nat),
        decreases n - i,
    {
        r.append(s);
        i = i + 1;
    }
    r
}

/// The first `k` characters of `s`, or all of `s` if it is shorter.
pub fn take_prefix(s: &str, k: usize) -> (r: String)
    ensures
        r@ == if s@.len() <= k {
            s@
        } else {
            s@.take(k as int)
        },
{
    let n: usize = s.unicode_len();
    if n <= k {
        String::from_str(s)
    } else {
        let part = s.substring_char(0, k);
        proof {
            assert(part@ =~= s@.take(k as int));
        }
        String::from_str(part)
    }
}

/// Index of the first line feed at or after `i`, or `s.len()`.
pub open spec fn find_newline(s: Seq<char>, i: int) -> int
    decreases s.len() - i,
{
    if 0 <= i < s.len() && s[i] != '\n' {
        find_newline(s, i + 1)
    } else {
        i
    }
}

pub proof fn lemma_find_newline_bounds(s: Seq<char>, i: int)
    requires
        0 <= i <= s.len(),
    ensures
        i <= find_newline(s, i) <= s.len(),
        forall|k: int| i <= k < find_newline(s, i) ==> s[k] != '\n',
        find_newline(s, i) < s.len() ==> s[find_newline(s, i)] == '\n',
    decreases s.len() - i,
{
    if i < s.len() && s[i] != '\n' {
        lemma_find_newline_bounds(s, i + 1);
    }
}

/// Scanning a suffix finds the same line feed, shifted.
pub proof fn lemma_find_newline_skip(s: Seq<char>, p: int, i: int)
    requires
        0 <= p <= s.len(),
        0 <= i,
    ensures
        find_newline(s.skip(p), i) == find_newline(s, p + i) - p,
    decreases s.len() - p - i,
{
    if p + i < s.len() && s[p + i] != '\n' {
        assert(s.skip(p)[i] == s[p + i]);
        lemma_find_newline_skip(s, p, i + 1);
    } else {
        if p + i < s.len() {
            assert(s.skip(p)[i] == s[p + i]);
        }
    }
}

/// In `l + '\n' + r` with `l` free of line feeds, the first line feed is
/// the one between the parts.
pub proof fn lemma_find_newline_concat(w: Seq<char>, l: Seq<char>, r: Seq<char>)
    requires
        w == l + seq!['\n'] + r,
        forall|i: int| 0 <= i < l.len() ==> l[i] != '\n',
    ensures
        find_newline(w, 0) == l.len(),
{
    lemma_find_newline_bounds(w, 0);
    let j = find_newline(w, 0);
    assert(w.len() == l.len() + 1 + r.len());
    assert(w[l.len() as int] == '\n');
    if j < l.len() {
        assert(w[j] == l[j]);
        assert(false);
    }
    if j > l.len() {
        assert(false);
    }
}

/// A line with one trailing carriage return removed, as `str::lines` does
/// for lines that ended in a line feed.
pub open spec fn strip_cr(l: Seq<char>) -> Seq<char> {
    if l.len() > 0 && l[l.len() - 1] == '\r' {
        l.take(l.len() - 1)
    } else {
        l
    }
}

/// The lines of `s`, split the way `str::lines` splits them: at each line
/// feed, removing one carriage return before it, with an optional final
/// line ending and no empty trailing line.
pub open spec fn spec_lines(s: Seq<char>) -> Seq<Seq<char>>
    decreases s.len(),
{
    if s.len() == 0 {
        Seq::empty()
    } else {
        let j = find_newline(s, 0);
        if 0 <= j < s.len() {
            seq![strip_cr(s.take(j))] + spec_lines(s.skip(j + 1))
        } else {
            seq![s]
        }
    }
}

/// Index of the first line feed at or after `from`.
pub fn find_nl_from(s: &str, from: usize) -> (j: usize)
    requires
        from <= s@.len(),
    ensures
        j == find_newline(s@, from as int),
        from <= j <= s@.len(),
{
    let n: usize = s.unicode_len();
    let mut i: usize = from;
    while i < n && s.get_char(i) != '\n'
        invariant
            from <= i <= n,
            n == s@.len(),
            find_newline(s@, from as int) == find_newline(s@, i as int),
        decreases n - i,
    {
        i = i + 1;
    }
    i
}

/// Splits `s` into lines, as `str::lines` does.
pub fn split_lines(s: &str) -> (r: Vec<String>)
    ensures
        r.deep_view() == spec_lines(s@),
{
    let n: usize = s.unicode_len();
    let mut r: Vec<String> = Vec::new();
    let mut p: usize = 0;
    proof {
        assert(r.deep_view() =~= Seq::<Seq<char>>::empty());
        assert(s@.skip(0) =~= s@);
    }
    while p < n
        invariant
            0 <= p <= n,
            n == s@.len(),
            spec_lines(s@) == r.deep_view() + spec_lines(s@.skip(p as int)),
        decreases n - p,
    {
        let ghost t = s@.skip(p as int);
        let ghost r0 = r.deep_view();
        let j = find_nl_from(s, p);
        proof {
            lemma_find_newline_skip(s@, p as int, 0);
            assert(find_newline(t, 0) == j - p);
        }
        if j == n {
            let line = s.substring_char(p, n);
            proof {
                assert(line@ =~= t);
                assert(spec_lines(t) =~= seq![t]);
            }
            r.push(line.to_owned());
            proof {
                assert(r.deep_view() =~= r0 + seq![t]);
                assert(r0 + seq![t] + spec_lines(t.skip(t.len() as int)) =~= r0 + spec_lines(t));
                assert(spec_lines(s@.skip(n as int)) =~= Seq::<Seq<char>>::empty());
                assert(r.deep_view() + spec_lines(s@.skip(n as int)) =~= r0 + spec_lines(t));
            }
            p = n;
        } else {
            let line = if j > p && s.get_char(j - 1) == '\r' {
                s.substring_char(p, j - 1)
            } else {
                s.substring_char(p, j)
            };
            proof {
                assert(t.take(j - p) =~= s@.subrange(p as int, j as int));
                if j > p && s@[j - 1] == '\r' {
                    assert(line@ =~= strip_cr(t.take(j - p))) by {
                        assert(t.take(j - p).len() == j - p);
                        assert(t.take(j - p)[j - p - 1] == s@[j - 1]);
                        assert(strip_cr(t.take(j - p)) =~= s@.subrange(p as int, j - 1));
                    }
                } else {
                    assert(line@ =~= strip_cr(t.take(j - p))) by {
                        if t.take(j - p).len() > 0 {
                            assert(t.take(j - p)[j - p - 1] == s@[j - 1]);
                        }
                    }
                }
                assert(spec_lines(t) == seq![strip_cr(t.take(j - p))] + spec_lines(
                    t.skip(j - p + 1),
                ));
                assert(t.skip(j - p + 1) =~= s@.skip(j + 1));
            }
            r.push(line.to_owned());
            proof {
                assert(r.deep_view() =~= r0 + seq![line@]);
                assert(r0 + seq![line@] + spec_lines(s@.skip(j + 1)) =~= r0 + spec_lines(t));
            }
            p = j + 1;
        }
    }
    proof {
        assert(spec_lines(s@.skip(p as int)) =~= Seq::<Seq<char>>::empty());
        assert(r.deep_view() =~= r.deep_view() + spec_lines(s@.skip(p as int)));
    }
    r
}

/// The lines joined back with a line feed between each pair.
pub open spec fn spec_join_nl(ls: Seq<Seq<char>>) -> Seq<char>
    decreases ls.len(),
{
    if ls.len() == 0 {
        Seq::empty()
    } else if ls.len() == 1 {
        ls[0]
    } else {
        ls[0] + seq!['\n'] + spec_join_nl(ls.skip(1))
    }
}

proof fn lemma_join_nl_take(ls: Seq<Seq<char>>, i: int)
    requires
        1 <= i < ls.len(),
    ensures
        spec_join_nl(ls.take(i + 1)) == spec_join_nl(ls.take(i)) + seq!['\n'] + ls[i],
    decreases i,
{
    if i == 1 {
        assert(ls.take(2) =~= seq![ls[0], ls[1]]);
        assert(ls.take(1) =~= seq![ls[0]]);
        assert(ls.take(2).skip(1) =~= seq![ls[1]]);
        assert(spec_join_nl(seq![ls[1]]) == ls[1]);
    } else {
        lemma_join_nl_take(ls.skip(1), i - 1);
        assert(ls.take(i + 1).skip(1) =~= ls.skip(1).take(i));
        assert(ls.take(i).skip(1) =~= ls.skip(1).take(i - 1));
        assert(ls.skip(1)[i - 1] == ls[i]);
        assert(spec_join_nl(ls.take(i + 1)) == ls[0] + seq!['\n'] + spec_join_nl(
            ls.skip(1).take(i),
        ));
        assert(spec_join_nl(ls.take(i)) == ls[0] + seq!['\n'] + spec_join_nl(
            ls.skip(1).take(i - 1),
        ));
        assert((ls[0] + seq!['\n'] + (spec_join_nl(ls.skip(1).take(i - 1)) + seq!['\n'] + ls[i]))
            =~= (ls[0] + seq!['\n'] + spec_join_nl(ls.skip(1).take(i - 1))) + seq!['\n'] + ls[i]);
    }
}

/// Joins `lines` with a line feed between each pair.
pub fn join_nl(lines: &Vec<String>) -> (r: String)
    ensures
        r@ == spec_join_nl(lines.deep_view()),
{
    let ghost ls = lines.deep_view();
    let mut r = String::new();
    let n = lines.len();
    if n == 0 {
        proof {
            assert(r@ =~= spec_join_nl(ls));
        }
        return r;
    }
    let mut i: usize = 0;
    while i < n
        invariant
            0 <= i <= n,
            n == lines.len(),
            ls == lines.deep_view(),
            i == 0 ==> r@ =~= Seq::<char>::empty(),
            i > 0 ==> r@ == spec_join_nl(ls.take(i as int)),
        decreases n - i,
    {
        if i > 0 {
            push_char(&mut r, '\n');
            proof {
                assert(r@ =~= spec_join_nl(ls.take(i as int)) + seq!['\n']);
            }
        }
        let ghost rbefore = r@;
        r.append(lines[i].as_str());
        proof {
            assert(lines[i as int]@ == ls[i as int]);
            if i == 0 {
                assert(ls.take(1) =~= seq![ls[0]]);
                assert(r@ =~= spec_join_nl(ls.take(1)));
            } else {
                lemma_join_nl_take(ls, i as int);
                assert(r@ =~= spec_join_nl(ls.take(i as int)) + seq!['\n'] + ls[i as int]);
            }
        }
        i = i + 1;
    }
    proof {
        assert(ls.take(n as int) =~= ls);
    }
    r
}

} // verus!
