//! The task lifecycle tracker: reads and rewrites the single `Status:`
//! marker line inside a task document, and derives counts and the next
//! eligible task from a list of task statuses.
//!
//! The marker grammar accepts optional leading whitespace, one optional
//! blockquote `>` with more optional whitespace, then the label `Status:`.
//! Reading a status additionally requires some text after the label;
//! rewriting accepts a bare label too.

use vstd::prelude::*;
use vstd::string::*;
use crate::status::TaskStatus;
use crate::text::{
    find_newline, find_nl_from, is_space, lemma_find_newline_skip,
    space_prefix_end, spec_lines, split_lines, strip_cr,
};

verus! {

/// Where the `Status:` label would have to start: after leading
/// whitespace and one optional `>` with more whitespace.
pub open spec fn marker_label_start(l: Seq<char>) -> int {
    let a = space_prefix_end(l, 0);
    if a < l.len() && l[a] == '>' {
        space_prefix_end(l, a + 1)
    } else {
        a
    }
}

/// A marker line: optional whitespace, an optional `>` with more
/// whitespace, then the label `Status:`.
pub open spec fn spec_is_marker_line(l: Seq<char>) -> bool {
    let b = marker_label_start(l);
    b + "Status:"@.len() <= l.len() && l.subrange(b, b + "Status:"@.len()) == "Status:"@
}

/// The text after the label of a marker line.
pub open spec fn spec_marker_rest(l: Seq<char>) -> Seq<char> {
    l.skip(marker_label_start(l) + "Status:"@.len())
}

/// The status one line contributes: `None` when the line is no marker, or
/// a marker with nothing at all after the label.
pub open spec fn spec_line_status(l: Seq<char>) -> Option<TaskStatus> {
    if spec_is_marker_line(l) && spec_marker_rest(l).len() > 0 {
        Some(TaskStatus::spec_of_text(spec_marker_rest(l)))
    } else {
        None
    }
}

/// The first line that yields a status decides; otherwise `Unknown`.
pub open spec fn spec_status_of_lines(ls: Seq<Seq<char>>) -> TaskStatus
    decreases ls.len(),
{
    if ls.len() == 0 {
        TaskStatus::Unknown
    } else {
        match spec_line_status(ls[0]) {
            Some(st) => st,
            None => spec_status_of_lines(ls.skip(1)),
        }
    }
}

/// The status a whole task document carries.
pub open spec fn spec_doc_status(content: Seq<char>) -> TaskStatus {
    spec_status_of_lines(spec_lines(content))
}

/// Where the `Status:` label would have to start on this line.
fn marker_label_pos(l: &str) -> (b: usize)
    ensures
        b == marker_label_start(l@),
        b <= l@.len(),
{
    let n: usize = l.unicode_len();
    let mut i: usize = 0;
    while i < n && is_space(l.get_char(i))
        invariant
            0 <= i <= n,
            n == l@.len(),
            space_prefix_end(l@, 0) == space_prefix_end(l@, i as int),
        decreases n - i,
    {
        i = i + 1;
    }
    assert(space_prefix_end(l@, i as int) == i as int);
    if i < n && l.get_char(i) == '>' {
        let mut k: usize = i + 1;
        while k < n && is_space(l.get_char(k))
            invariant
                i + 1 <= k <= n,
                n == l@.len(),
                space_prefix_end(l@, i + 1) == space_prefix_end(l@, k as int),
            decreases n - k,
        {
            k = k + 1;
        }
        assert(space_prefix_end(l@, k as int) == k as int);
        k
    } else {
        i
    }
}

/// Whether this line is a rewritable marker line.
pub fn is_marker_line(l: &str) -> (r: bool)
    ensures
        r == spec_is_marker_line(l@),
{
    let b = marker_label_pos(l);
    let n: usize = l.unicode_len();
    let m: usize = "Status:".unicode_len();
    if m > n - b {
        return false;
    }
    crate::text::eq_at(l, b, "Status:")
}

/// Reads the status of a task document: the first marker line with text
/// after the label decides; a document without one reads as `Unknown`.
pub fn get_task_status(content: &str) -> (r: TaskStatus)
    ensures
        r == spec_doc_status(content@),
{
    let lines = split_lines(content);
    let ghost ls = spec_lines(content@);
    let n = lines.len();
    let mut i: usize = 0;
    proof {
        assert(ls.skip(0) =~= ls);
    }
    while i < n
        invariant
            0 <= i <= n,
            n == lines.len(),
            ls == lines.deep_view(),
            ls == spec_lines(content@),
            spec_status_of_lines(ls) == spec_status_of_lines(ls.skip(i as int)),
        decreases n - i,
    {
        let line = &lines[i];
        proof {
            assert(line@ == ls[i as int]);
            assert(ls.skip(i as int)[0] == ls[i as int]);
            assert(ls.skip(i as int).skip(1) =~= ls.skip(i + 1));
        }
        let b = marker_label_pos(line.as_str());
        let ln: usize = line.as_str().unicode_len();
        let m: usize = "Status:".unicode_len();
        if m <= ln - b && crate::text::eq_at(line.as_str(), b, "Status:") {
            if b + m < ln {
                let rest = line.as_str().substring_char(b + m, ln);
                proof {
                    assert(rest@ =~= spec_marker_rest(line@));
                }
                return TaskStatus::from_str(rest);
            }
            proof {
                assert(spec_marker_rest(line@).len() == 0);
            }
        }
        i = i + 1;
    }
    proof {
        assert(ls.skip(n as int) =~= Seq::<Seq<char>>::empty());
    }
    TaskStatus::Unknown
}

/// The replacement marker line the rewrite emits.
pub open spec fn marker_line_text(token: Seq<char>) -> Seq<char> {
    "> Status: "@ + token
}

/// The rewritten document: every line re-emitted with a single line feed,
/// the first marker line (if `replaced` is still false) replaced by the
/// canonical marker, and a fresh marker block appended when the document
/// held none.
pub open spec fn spec_set_rec(s: Seq<char>, token: Seq<char>, replaced: bool) -> Seq<char>
    decreases s.len(),
{
    if s.len() == 0 {
        if replaced {
            Seq::empty()
        } else {
            seq!['\n'] + marker_line_text(token) + seq!['\n']
        }
    } else {
        let j = find_newline(s, 0);
        if 0 <= j < s.len() {
            let l = strip_cr(s.take(j));
            if !replaced && spec_is_marker_line(l) {
                marker_line_text(token) + seq!['\n'] + spec_set_rec(s.skip(j + 1), token, true)
            } else {
                l + seq!['\n'] + spec_set_rec(s.skip(j + 1), token, replaced)
            }
        } else {
            if !replaced && spec_is_marker_line(s) {
                marker_line_text(token) + seq!['\n']
            } else {
                s + seq!['\n'] + spec_set_rec(Seq::empty(), token, replaced)
            }
        }
    }
}

/// A document with its status marker rewritten to `token`; see
/// `spec_set_rec`.
pub open spec fn spec_set_status(content: Seq<char>, token: Seq<char>) -> Seq<char> {
    spec_set_rec(content, token, false)
}

/// Rewrites the first marker line of `content` to carry `new_status`,
/// preserving every other line, and appends a marker when none exists.
#[verifier::rlimit(60)]
pub fn set_task_status(content: &str, new_status: TaskStatus) -> (r: String)
    ensures
        r@ == spec_set_status(content@, new_status.spec_token()),
{
    let token = new_status.as_str();
    let n: usize = content.unicode_len();
    let mut out = String::new();
    let mut replaced = false;
    let mut p: usize = 0;
    proof {
        assert(content@.skip(0) =~= content@);
        assert(out@ + spec_set_rec(content@, token@, false) =~= spec_set_rec(
            content@,
            token@,
            false,
        ));
    }
    while p < n
        invariant
            0 <= p <= n,
            n == content@.len(),
            token@ == new_status.spec_token(),
            spec_set_rec(content@, token@, false) == out@ + spec_set_rec(
                content@.skip(p as int),
                token@,
                replaced,
            ),
        decreases n - p,
    {
        let ghost t = content@.skip(p as int);
        let ghost out0 = out@;
        let j = find_nl_from(content, p);
        proof {
            lemma_find_newline_skip(content@, p as int, 0);
            assert(find_newline(t, 0) == j - p);
        }
        if j == n {
            let line = content.substring_char(p, n);
            proof {
                assert(line@ =~= t);
            }
            if !replaced && is_marker_line(line) {
                out.append("> Status: ");
                out.append(token);
                crate::text::push_char(&mut out, '\n');
                replaced = true;
                proof {
                    assert(spec_set_rec(t, token@, false) == marker_line_text(token@) + seq![
                        '\n',
                    ]);
                    assert(out@ =~= out0 + (marker_line_text(token@) + seq!['\n']));
                    assert(content@.skip(n as int) =~= Seq::<char>::empty());
                    assert(out@ + spec_set_rec(content@.skip(n as int), token@, true) =~= out0
                        + spec_set_rec(t, token@, false));
                }
            } else {
                let ghost rep0 = replaced;
                out.append(line);
                crate::text::push_char(&mut out, '\n');
                proof {
                    assert(spec_set_rec(t, token@, rep0) == t + seq!['\n'] + spec_set_rec(
                        Seq::<char>::empty(),
                        token@,
                        rep0,
                    ));
                    assert(out@ =~= out0 + (t + seq!['\n']));
                    assert(content@.skip(n as int) =~= Seq::<char>::empty());
                    assert(out@ + spec_set_rec(content@.skip(n as int), token@, rep0) =~= out0
                        + spec_set_rec(t, token@, rep0));
                }
            }
            p = n;
        } else {
            let line = if j > p && content.get_char(j - 1) == '\r' {
                content.substring_char(p, j - 1)
            } else {
                content.substring_char(p, j)
            };
            proof {
                assert(t.take(j - p) =~= content@.subrange(p as int, j as int));
                if j > p && content@[j - 1] == '\r' {
                    assert(t.take(j - p)[j - p - 1] == content@[j - 1]);
                    assert(line@ =~= strip_cr(t.take(j - p))) by {
                        assert(strip_cr(t.take(j - p)) =~= content@.subrange(p as int, j - 1));
                    }
                } else {
                    if t.take(j - p).len() > 0 {
                        assert(t.take(j - p)[j - p - 1] == content@[j - 1]);
                    }
                    assert(line@ =~= strip_cr(t.take(j - p)));
                }
                assert(t.skip(j - p + 1) =~= content@.skip(j + 1));
            }
            if !replaced && is_marker_line(line) {
                out.append("> Status: ");
                out.append(token);
                crate::text::push_char(&mut out, '\n');
                replaced = true;
                proof {
                    assert(spec_set_rec(t, token@, false) == marker_line_text(token@) + seq!['\n']
                        + spec_set_rec(content@.skip(j + 1), token@, true));
                    assert(out@ =~= out0 + (marker_line_text(token@) + seq!['\n']));
                    assert(out@ + spec_set_rec(content@.skip(j + 1), token@, true) =~= out0
                        + spec_set_rec(t, token@, false));
                }
            } else {
                let ghost rep0 = replaced;
                out.append(line);
                crate::text::push_char(&mut out, '\n');
                proof {
                    assert(spec_set_rec(t, token@, rep0) == strip_cr(t.take(j - p)) + seq!['\n']
                        + spec_set_rec(content@.skip(j + 1), token@, rep0));
                    assert(out@ =~= out0 + (strip_cr(t.take(j - p)) + seq!['\n']));
                    assert(out@ + spec_set_rec(content@.skip(j + 1), token@, rep0) =~= out0
                        + spec_set_rec(t, token@, rep0));
                }
            }
            p = j + 1;
        }
    }
    proof {
        assert(content@.skip(p as int) =~= Seq::<char>::empty());
    }
    if !replaced {
        let ghost out0 = out@;
        crate::text::push_char(&mut out, '\n');
        out.append("> Status: ");
        out.append(token);
        crate::text::push_char(&mut out, '\n');
        proof {
            assert(spec_set_rec(Seq::<char>::empty(), token@, false) == seq!['\n']
                + marker_line_text(token@) + seq!['\n']);
            assert(out@ =~= out0 + (seq!['\n'] + marker_line_text(token@) + seq!['\n']));
        }
    }
    out
}

/// Text that stays on one line: free of line feeds and carriage returns.
pub open spec fn single_line_text(s: Seq<char>) -> bool {
    forall|i: int| 0 <= i < s.len() ==> s[i] != '\n' && s[i] != '\r'
}

/// Text free of carriage returns.
pub open spec fn no_cr(s: Seq<char>) -> bool {
    forall|i: int| 0 <= i < s.len() ==> s[i] != '\r'
}

/// Every canonical status token fits on one line and is non-empty.
pub proof fn lemma_token_single_line(st: TaskStatus)
    ensures
        single_line_text(st.spec_token()),
        st.spec_token().len() > 0,
{
    reveal_strlit("pending");
    reveal_strlit("in-progress");
    reveal_strlit("in-review");
    reveal_strlit("done");
    reveal_strlit("blocked");
    reveal_strlit("unknown");
    assert forall|i: int|
        0 <= i < "pending"@.len() implies "pending"@[i] != '\n' && "pending"@[i] != '\r' by {}
    assert forall|i: int|
        0 <= i < "in-progress"@.len() implies "in-progress"@[i] != '\n' && "in-progress"@[i]
        != '\r' by {}
    assert forall|i: int|
        0 <= i < "in-review"@.len() implies "in-review"@[i] != '\n' && "in-review"@[i] != '\r' by {}
    assert forall|i: int| 0 <= i < "done"@.len() implies "done"@[i] != '\n' && "done"@[i] != '\r' by {}
    assert forall|i: int|
        0 <= i < "blocked"@.len() implies "blocked"@[i] != '\n' && "blocked"@[i] != '\r' by {}
    assert forall|i: int|
        0 <= i < "unknown"@.len() implies "unknown"@[i] != '\n' && "unknown"@[i] != '\r' by {}
}

/// The canonical marker line is a marker line and, when the token stays on
/// one line, so does the whole marker line.
pub proof fn lemma_marker_line_form(token: Seq<char>)
    requires
        single_line_text(token),
    ensures
        spec_is_marker_line(marker_line_text(token)),
        single_line_text(marker_line_text(token)),
        marker_line_text(token).len() == 10 + token.len(),
{
    reveal_strlit("> Status: ");
    reveal_strlit("Status:");
    let m = marker_line_text(token);
    assert(m.len() == 10 + token.len());
    assert(m[0] == '>');
    assert(m[1] == ' ');
    assert(m[2] == 'S');
    assert(crate::text::space_prefix_end(m, 2) == 2);
    assert(crate::text::space_prefix_end(m, 1) == 2);
    assert(crate::text::space_prefix_end(m, 0) == 0);
    assert(marker_label_start(m) == 2);
    assert(m.subrange(2, 9) =~= "Status:"@);
    assert forall|i: int| 0 <= i < m.len() implies m[i] != '\n' && m[i] != '\r' by {
        if i >= 10 {
            assert(m[i] == token[i - 10]);
        } else {
            assert(m[i] == "> Status: "@[i]);
        }
    }
}

proof fn lemma_empty_not_marker()
    ensures
        !spec_is_marker_line(Seq::<char>::empty()),
{
    reveal_strlit("Status:");
    assert(crate::text::space_prefix_end(Seq::<char>::empty(), 0) == 0);
}

/// In pass-through mode (marker already placed), the rewrite only
/// normalises line endings, and normalising twice is the same as once.
proof fn lemma_set_rec_normal_idem(c: Seq<char>, token: Seq<char>)
    requires
        no_cr(c),
    ensures
        spec_set_rec(spec_set_rec(c, token, true), token, true) == spec_set_rec(c, token, true),
    decreases c.len(),
{
    let u = spec_set_rec(c, token, true);
    if c.len() == 0 {
        assert(u =~= Seq::<char>::empty());
    } else {
        crate::text::lemma_find_newline_bounds(c, 0);
        let j = find_newline(c, 0);
        if j < c.len() {
            let l = c.take(j);
            assert(strip_cr(l) == l) by {
                if l.len() > 0 {
                    assert(l[l.len() - 1] == c[j - 1]);
                }
            }
            let cr = c.skip(j + 1);
            let ur = spec_set_rec(cr, token, true);
            assert(u == l + seq!['\n'] + ur);
            assert(forall|i: int| 0 <= i < l.len() ==> l[i] != '\n');
            crate::text::lemma_find_newline_concat(u, l, ur);
            assert(find_newline(u, 0) == j);
            assert(u.len() == j + 1 + ur.len());
            assert(u.take(j) =~= l);
            assert(u.skip(j + 1) =~= ur);
            assert(no_cr(cr)) by {
                assert(forall|i: int| 0 <= i < cr.len() ==> cr[i] == c[i + j + 1]);
            }
            lemma_set_rec_normal_idem(cr, token);
            assert(spec_set_rec(u, token, true) == u);
        } else {
            assert(j == c.len());
            let ur = spec_set_rec(Seq::<char>::empty(), token, true);
            assert(ur =~= Seq::<char>::empty());
            assert(u == c + seq!['\n'] + ur);
            assert(forall|i: int| 0 <= i < c.len() ==> c[i] != '\n');
            crate::text::lemma_find_newline_concat(u, c, ur);
            assert(find_newline(u, 0) == c.len());
            assert(u.len() == c.len() + 1);
            assert(u.take(c.len() as int) =~= c);
            assert(strip_cr(c) == c) by {
                if c.len() > 0 {
                    assert(c[c.len() - 1] != '\r');
                }
            }
            assert(u.skip(c.len() as int + 1) =~= Seq::<char>::empty());
            assert(spec_set_rec(u, token, true) == u);
        }
    }
}

/// Rewriting twice in marker-seeking mode is the same as rewriting once.
#[verifier::rlimit(60)]
proof fn lemma_set_rec_rewrite_idem(c: Seq<char>, token: Seq<char>)
    requires
        no_cr(c),
        single_line_text(token),
    ensures
        spec_set_rec(spec_set_rec(c, token, false), token, false) == spec_set_rec(c, token, false),
    decreases c.len(),
{
    lemma_marker_line_form(token);
    lemma_empty_not_marker();
    let m = marker_line_text(token);
    let u = spec_set_rec(c, token, false);
    if c.len() == 0 {
        assert(u == seq!['\n'] + m + seq!['\n']);
        assert(u[0] == '\n');
        assert(find_newline(u, 0) == 0);
        assert(u.take(0) =~= Seq::<char>::empty());
        let u1 = u.skip(1);
        assert(u1 =~= m + seq!['\n'] + Seq::<char>::empty());
        crate::text::lemma_find_newline_concat(u1, m, Seq::empty());
        assert(find_newline(u1, 0) == m.len());
        assert(u1.len() == m.len() + 1);
        assert(u1.take(m.len() as int) =~= m);
        assert(strip_cr(m) == m) by {
            assert(m[m.len() - 1] != '\r');
        }
        assert(u1.skip(m.len() as int + 1) =~= Seq::<char>::empty());
        assert(spec_set_rec(u1, token, false) == m + seq!['\n'] + spec_set_rec(
            Seq::<char>::empty(),
            token,
            true,
        ));
        assert(spec_set_rec(u, token, false) == Seq::<char>::empty() + seq!['\n'] + spec_set_rec(
            u1,
            token,
            false,
        ));
        assert(spec_set_rec(u, token, false) =~= u);
    } else {
        crate::text::lemma_find_newline_bounds(c, 0);
        let j = find_newline(c, 0);
        if j < c.len() {
            let l = strip_cr(c.take(j));
            assert(l == c.take(j)) by {
                if c.take(j).len() > 0 {
                    assert(c.take(j)[j - 1] == c[j - 1]);
                }
            }
            assert(forall|i: int| 0 <= i < l.len() ==> l[i] != '\n');
            assert(strip_cr(l) == l) by {
                if l.len() > 0 {
                    assert(l[l.len() - 1] == c[j - 1]);
                }
            }
            let cr = c.skip(j + 1);
            assert(no_cr(cr)) by {
                assert(forall|i: int| 0 <= i < cr.len() ==> cr[i] == c[i + j + 1]);
            }
            if spec_is_marker_line(l) {
                let ur = spec_set_rec(cr, token, true);
                assert(u == m + seq!['\n'] + ur);
                crate::text::lemma_find_newline_concat(u, m, ur);
                assert(find_newline(u, 0) == m.len());
                assert(u.len() == m.len() + 1 + ur.len());
                assert(u.take(m.len() as int) =~= m);
                assert(strip_cr(m) == m) by {
                    assert(m[m.len() - 1] != '\r');
                }
                assert(u.skip(m.len() as int + 1) =~= ur);
                lemma_set_rec_normal_idem(cr, token);
                assert(spec_set_rec(u, token, false) == m + seq!['\n'] + spec_set_rec(
                    ur,
                    token,
                    true,
                ));
                assert(spec_set_rec(u, token, false) == u);
            } else {
                let ur = spec_set_rec(cr, token, false);
                assert(u == l + seq!['\n'] + ur);
                crate::text::lemma_find_newline_concat(u, l, ur);
                assert(find_newline(u, 0) == l.len());
                assert(u.len() == l.len() + 1 + ur.len());
                assert(u.take(l.len() as int) =~= l);
                assert(u.skip(l.len() as int + 1) =~= ur);
                lemma_set_rec_rewrite_idem(cr, token);
                assert(spec_set_rec(u, token, false) == l + seq!['\n'] + spec_set_rec(
                    ur,
                    token,
                    false,
                ));
                assert(spec_set_rec(u, token, false) == u);
            }
        } else {
            assert(j == c.len());
            assert(forall|i: int| 0 <= i < c.len() ==> c[i] != '\n');
            if spec_is_marker_line(c) {
                assert(u == m + seq!['\n']);
                assert(u =~= m + seq!['\n'] + Seq::<char>::empty());
                crate::text::lemma_find_newline_concat(
                    m + seq!['\n'] + Seq::<char>::empty(),
                    m,
                    Seq::empty(),
                );
                assert(find_newline(u, 0) == m.len());
                assert(u.len() == m.len() + 1);
                assert(u.take(m.len() as int) =~= m);
                assert(strip_cr(m) == m) by {
                    assert(m[m.len() - 1] != '\r');
                }
                assert(u.skip(m.len() as int + 1) =~= Seq::<char>::empty());
                assert(spec_set_rec(u, token, false) == m + seq!['\n'] + spec_set_rec(
                    Seq::<char>::empty(),
                    token,
                    true,
                ));
                assert(spec_set_rec(u, token, false) =~= u);
            } else {
                let ur = spec_set_rec(Seq::<char>::empty(), token, false);
                assert(u == c + seq!['\n'] + ur);
                crate::text::lemma_find_newline_concat(u, c, ur);
                assert(find_newline(u, 0) == c.len());
                assert(u.len() == c.len() + 1 + ur.len());
                assert(u.take(c.len() as int) =~= c);
                assert(strip_cr(c) == c) by {
                    if c.len() > 0 {
                        assert(c[c.len() - 1] != '\r');
                    }
                }
                assert(u.skip(c.len() as int + 1) =~= ur);
                lemma_set_rec_rewrite_idem(Seq::empty(), token);
                assert(spec_set_rec(u, token, false) == c + seq!['\n'] + spec_set_rec(
                    ur,
                    token,
                    false,
                ));
                assert(spec_set_rec(u, token, false) == u);
            }
        }
    }
}

/// Status rewrite idempotence: rewriting a task document's status twice
/// yields exactly the bytes of rewriting it once, for documents free of
/// carriage returns; non-marker lines are preserved by construction.
pub proof fn lemma_set_status_idempotent(content: Seq<char>, status: TaskStatus)
    requires
        no_cr(content),
    ensures
        spec_set_status(spec_set_status(content, status.spec_token()), status.spec_token())
            == spec_set_status(content, status.spec_token()),
{
    lemma_token_single_line(status);
    lemma_set_rec_rewrite_idem(content, status.spec_token());
}

/// A task that still calls for work: pending, in progress or in review.
pub open spec fn spec_is_active(st: TaskStatus) -> bool {
    st == TaskStatus::Pending || st == TaskStatus::InProgress || st == TaskStatus::InReview
}

/// How many of the statuses satisfy `p`.
pub open spec fn count_pred(ss: Seq<TaskStatus>, p: spec_fn(TaskStatus) -> bool) -> nat
    decreases ss.len(),
{
    if ss.len() == 0 {
        0
    } else {
        count_pred(ss.drop_last(), p) + if p(ss.last()) {
            1nat
        } else {
            0nat
        }
    }
}

/// Counts the tasks that carry exactly `status`.
pub fn count_status(statuses: &Vec<TaskStatus>, status: TaskStatus) -> (r: usize)
    ensures
        r == count_pred(statuses@, |st: TaskStatus| st == status),
{
    let ghost p = |st: TaskStatus| st == status;
    let n = statuses.len();
    let mut cnt: usize = 0;
    let mut i: usize = 0;
    while i < n
        invariant
            0 <= i <= n,
            n == statuses.len(),
            cnt <= i,
            cnt == count_pred(statuses@.take(i as int), p),
            p == (|st: TaskStatus| st == status),
        decreases n - i,
    {
        proof {
            assert(statuses@.take(i + 1).drop_last() =~= statuses@.take(i as int));
            assert(statuses@.take(i + 1).last() == statuses@[i as int]);
        }
        if statuses[i] == status {
            cnt = cnt + 1;
        }
        i = i + 1;
    }
    proof {
        assert(statuses@.take(n as int) =~= statuses@);
    }
    cnt
}

/// The number of tasks.
pub fn count_total(statuses: &Vec<TaskStatus>) -> (r: usize)
    ensures
        r == statuses@.len(),
{
    statuses.len()
}

/// Counts the tasks not yet done.
pub fn count_remaining(statuses: &Vec<TaskStatus>) -> (r: usize)
    ensures
        r == count_pred(statuses@, |st: TaskStatus| st != TaskStatus::Done),
{
    let ghost p = |st: TaskStatus| st != TaskStatus::Done;
    let n = statuses.len();
    let mut cnt: usize = 0;
    let mut i: usize = 0;
    while i < n
        invariant
            0 <= i <= n,
            n == statuses.len(),
            cnt <= i,
            cnt == count_pred(statuses@.take(i as int), p),
            p == (|st: TaskStatus| st != TaskStatus::Done),
        decreases n - i,
    {
        proof {
            assert(statuses@.take(i + 1).drop_last() =~= statuses@.take(i as int));
            assert(statuses@.take(i + 1).last() == statuses@[i as int]);
        }
        if statuses[i] != TaskStatus::Done {
            cnt = cnt + 1;
        }
        i = i + 1;
    }
    proof {
        assert(statuses@.take(n as int) =~= statuses@);
    }
    cnt
}

/// Counts the active tasks (pending, in progress or in review).
pub fn count_active(statuses: &Vec<TaskStatus>) -> (r: usize)
    ensures
        r == count_pred(statuses@, |st: TaskStatus| spec_is_active(st)),
{
    let ghost p = |st: TaskStatus| spec_is_active(st);
    let n = statuses.len();
    let mut cnt: usize = 0;
    let mut i: usize = 0;
    while i < n
        invariant
            0 <= i <= n,
            n == statuses.len(),
            cnt <= i,
            cnt == count_pred(statuses@.take(i as int), p),
            p == (|st: TaskStatus| spec_is_active(st)),
        decreases n - i,
    {
        proof {
            assert(statuses@.take(i + 1).drop_last() =~= statuses@.take(i as int));
            assert(statuses@.take(i + 1).last() == statuses@[i as int]);
        }
        let st = statuses[i];
        if st == TaskStatus::Pending || st == TaskStatus::InProgress || st == TaskStatus::InReview {
            cnt = cnt + 1;
        }
        i = i + 1;
    }
    proof {
        assert(statuses@.take(n as int) =~= statuses@);
    }
    cnt
}

/// The first pending task, by position in the (filename-sorted) list.
pub fn find_next_task(statuses: &Vec<TaskStatus>) -> (r: Option<usize>)
    ensures
        match r {
            Some(i) => i < statuses@.len() && statuses@[i as int] == TaskStatus::Pending
                && forall|j: int| 0 <= j < i ==> statuses@[j] != TaskStatus::Pending,
            None => forall|j: int|
                0 <= j < statuses@.len() ==> statuses@[j] != TaskStatus::Pending,
        },
{
    let n = statuses.len();
    let mut i: usize = 0;
    while i < n
        invariant
            0 <= i <= n,
            n == statuses.len(),
            forall|j: int| 0 <= j < i ==> statuses@[j] != TaskStatus::Pending,
        decreases n - i,
    {
        if statuses[i] == TaskStatus::Pending {
            return Some(i);
        }
        i = i + 1;
    }
    None
}

/// The first task that is still active, used as a fallback when nothing is
/// strictly pending.
pub fn find_open_task(statuses: &Vec<TaskStatus>) -> (r: Option<usize>)
    ensures
        match r {
            Some(i) => i < statuses@.len() && spec_is_active(statuses@[i as int]) && forall|j: int|
                0 <= j < i ==> !spec_is_active(statuses@[j]),
            None => forall|j: int| 0 <= j < statuses@.len() ==> !spec_is_active(statuses@[j]),
        },
{
    let n = statuses.len();
    let mut i: usize = 0;
    while i < n
        invariant
            0 <= i <= n,
            n == statuses.len(),
            forall|j: int| 0 <= j < i ==> !spec_is_active(statuses@[j]),
        decreases n - i,
    {
        let st = statuses[i];
        if st == TaskStatus::Pending || st == TaskStatus::InProgress || st == TaskStatus::InReview {
            return Some(i);
        }
        i = i + 1;
    }
    None
}

/// The compact `name:status;` fingerprint of a task list.
pub open spec fn spec_signature(names: Seq<Seq<char>>, ss: Seq<TaskStatus>) -> Seq<char>
    decreases names.len(),
{
    if names.len() == 0 || ss.len() == 0 {
        Seq::empty()
    } else {
        names[0] + seq![':'] + ss[0].spec_token() + seq![';'] + spec_signature(
            names.skip(1),
            ss.skip(1),
        )
    }
}

/// Builds the `name:status;` fingerprint of the task list, one entry per
/// task file in order.
pub fn status_signature(names: &Vec<String>, statuses: &Vec<TaskStatus>) -> (r: String)
    requires
        names@.len() == statuses@.len(),
    ensures
        r@ == spec_signature(names.deep_view(), statuses@),
{
    let ghost ns = names.deep_view();
    let ghost ss = statuses@;
    let n = names.len();
    let mut out = String::new();
    let mut i: usize = 0;
    proof {
        assert(ns.skip(0) =~= ns);
        assert(ss.skip(0) =~= ss);
        assert(out@ + spec_signature(ns, ss) =~= spec_signature(ns, ss));
    }
    while i < n
        invariant
            0 <= i <= n,
            n == names.len(),
            n == statuses.len(),
            ns == names.deep_view(),
            ss == statuses@,
            spec_signature(ns, ss) == out@ + spec_signature(ns.skip(i as int), ss.skip(i as int)),
        decreases n - i,
    {
        let ghost out0 = out@;
        out.append(names[i].as_str());
        crate::text::push_char(&mut out, ':');
        out.append(statuses[i].as_str());
        crate::text::push_char(&mut out, ';');
        proof {
            assert(ns.skip(i as int)[0] == ns[i as int]);
            assert(ss.skip(i as int)[0] == ss[i as int]);
            assert(ns.skip(i as int).skip(1) =~= ns.skip(i + 1));
            assert(ss.skip(i as int).skip(1) =~= ss.skip(i + 1));
            assert(spec_signature(ns.skip(i as int), ss.skip(i as int)) == ns[i as int] + seq![':']
                + ss[i as int].spec_token() + seq![';'] + spec_signature(
                ns.skip(i + 1),
                ss.skip(i + 1),
            ));
            assert(out@ =~= out0 + (ns[i as int] + seq![':'] + ss[i as int].spec_token() + seq![
                ';',
            ]));
            assert(out@ + spec_signature(ns.skip(i + 1), ss.skip(i + 1)) =~= out0 + spec_signature(
                ns.skip(i as int),
                ss.skip(i as int),
            ));
        }
        i = i + 1;
    }
    proof {
        assert(spec_signature(ns.skip(n as int), ss.skip(n as int)) =~= Seq::<char>::empty());
        assert(out@ =~= out@ + spec_signature(ns.skip(n as int), ss.skip(n as int)));
    }
    out
}

/// The title a task document gives itself: the text of its first `# `
/// heading line, trimmed.
pub open spec fn spec_task_title_of_lines(ls: Seq<Seq<char>>) -> Option<Seq<char>>
    decreases ls.len(),
{
    if ls.len() == 0 {
        None
    } else if ls[0].len() >= 2 && ls[0][0] == '#' && ls[0][1] == ' ' {
        Some(crate::text::spec_trim(ls[0].skip(2)))
    } else {
        spec_task_title_of_lines(ls.skip(1))
    }
}

/// The title of a task document, when it has a `# ` heading.
pub open spec fn spec_task_title(content: Seq<char>) -> Option<Seq<char>> {
    spec_task_title_of_lines(spec_lines(content))
}

/// Reads the task title from a task document.
pub fn task_title(content: &str) -> (r: Option<String>)
    ensures
        match r {
            Some(t) => spec_task_title(content@) == Some(t@),
            None => spec_task_title(content@) is None,
        },
{
    let lines = split_lines(content);
    let ghost ls = spec_lines(content@);
    let n = lines.len();
    let mut i: usize = 0;
    proof {
        assert(ls.skip(0) =~= ls);
    }
    while i < n
        invariant
            0 <= i <= n,
            n == lines.len(),
            ls == lines.deep_view(),
            ls == spec_lines(content@),
            spec_task_title_of_lines(ls) == spec_task_title_of_lines(ls.skip(i as int)),
        decreases n - i,
    {
        let line = &lines[i];
        proof {
            assert(line@ == ls[i as int]);
            assert(ls.skip(i as int)[0] == ls[i as int]);
            assert(ls.skip(i as int).skip(1) =~= ls.skip(i + 1));
        }
        let ln: usize = line.as_str().unicode_len();
        if ln >= 2 && line.as_str().get_char(0) == '#' && line.as_str().get_char(1) == ' ' {
            let rest = line.as_str().substring_char(2, ln);
            proof {
                assert(rest@ =~= line@.skip(2));
            }
            return Some(crate::text::trim_str(rest));
        }
        i = i + 1;
    }
    proof {
        assert(ls.skip(n as int) =~= Seq::<Seq<char>>::empty());
    }
    None
}

/// How many entries of the list are positive.
pub open spec fn count_pos(s: Seq<usize>) -> nat
    decreases s.len(),
{
    if s.len() == 0 {
        0
    } else {
        count_pos(s.drop_last()) + if s.last() > 0 {
            1nat
        } else {
            0nat
        }
    }
}

/// Which specification directory a run should use, when none was named
/// explicitly.
#[derive(Clone, Copy, PartialEq, Eq, Structural, Debug)]
pub enum SpecDirChoice {
    /// Exactly one candidate has active tasks: use it.
    OnlyActive { index: usize },
    /// Several candidates have active tasks: the caller must be told to
    /// name one.
    MultipleActive,
    /// No candidate has active tasks, but there is only one candidate:
    /// fall back to it.
    SoleCandidate,
    /// No candidate qualifies; the caller must ask or give up.
    NoneEligible,
}

/// Decides among candidate specification directories by their active-task
/// counts, in list order.
pub fn resolve_spec_choice(active_counts: &Vec<usize>) -> (r: SpecDirChoice)
    ensures
        ({
            let cs = active_counts@;
            if count_pos(cs) == 1 {
                r matches SpecDirChoice::OnlyActive { index } && index < cs.len() && cs[
                    index as int
                ] > 0 && forall|j: int| 0 <= j < cs.len() && j != index ==> cs[j] == 0
            } else if count_pos(cs) > 1 {
                r == SpecDirChoice::MultipleActive
            } else if cs.len() == 1 {
                r == SpecDirChoice::SoleCandidate
            } else {
                r == SpecDirChoice::NoneEligible
            }
        }),
{
    let n = active_counts.len();
    let mut actives: usize = 0;
    let mut first: usize = 0;
    let mut i: usize = 0;
    while i < n
        invariant
            0 <= i <= n,
            n == active_counts.len(),
            actives == count_pos(active_counts@.take(i as int)),
            actives <= i,
            actives > 0 ==> first < i && active_counts@[first as int] > 0,
            actives == 1 ==> forall|j: int|
                0 <= j < i && j != first ==> active_counts@[j] == 0,
            actives == 0 ==> forall|j: int| 0 <= j < i ==> active_counts@[j] == 0,
        decreases n - i,
    {
        proof {
            assert(active_counts@.take(i + 1).drop_last() =~= active_counts@.take(i as int));
            assert(active_counts@.take(i + 1).last() == active_counts@[i as int]);
        }
        if active_counts[i] > 0 {
            if actives == 0 {
                first = i;
            }
            actives = actives + 1;
        }
        i = i + 1;
    }
    proof {
        assert(active_counts@.take(n as int) =~= active_counts@);
    }
    if actives == 1 {
        SpecDirChoice::OnlyActive { index: first }
    } else if actives > 1 {
        SpecDirChoice::MultipleActive
    } else if n == 1 {
        SpecDirChoice::SoleCandidate
    } else {
        SpecDirChoice::NoneEligible
    }
}

/// Index of the last `/` in `p`, or `-1`.
pub open spec fn last_slash(p: Seq<char>) -> int
    decreases p.len(),
{
    if p.len() == 0 {
        -1
    } else if p.last() == '/' {
        p.len() - 1
    } else {
        last_slash(p.drop_last())
    }
}

/// A path without its trailing slashes.
pub open spec fn drop_trailing_slashes(p: Seq<char>) -> Seq<char>
    decreases p.len(),
{
    if p.len() > 0 && p.last() == '/' {
        drop_trailing_slashes(p.drop_last())
    } else {
        p
    }
}

/// The name a specification directory goes by: the last segment of its
/// path, ignoring trailing slashes; a path with no segment reads as
/// `unknown-spec`.
pub open spec fn spec_spec_name(p: Seq<char>) -> Seq<char> {
    let q = drop_trailing_slashes(p);
    if q.len() == 0 {
        "unknown-spec"@
    } else {
        q.skip(last_slash(q) + 1)
    }
}

proof fn lemma_last_slash_bounds(p: Seq<char>)
    ensures
        -1 <= last_slash(p) < p.len(),
        last_slash(p) >= 0 ==> p[last_slash(p)] == '/',
        forall|k: int| last_slash(p) < k < p.len() ==> p[k] != '/',
    decreases p.len(),
{
    if p.len() > 0 && p.last() != '/' {
        lemma_last_slash_bounds(p.drop_last());
        assert(forall|k: int| 0 <= k < p.len() - 1 ==> p.drop_last()[k] == p[k]);
    }
}

/// Derives the display name of a specification directory from its path.
pub fn get_spec_name(spec_dir: &str) -> (r: String)
    ensures
        r@ == spec_spec_name(spec_dir@),
{
    let n: usize = spec_dir.unicode_len();
    let mut e: usize = n;
    proof {
        assert(spec_dir@.take(n as int) =~= spec_dir@);
    }
    while e > 0 && spec_dir.get_char(e - 1) == '/'
        invariant
            0 <= e <= n,
            n == spec_dir@.len(),
            drop_trailing_slashes(spec_dir@) == drop_trailing_slashes(spec_dir@.take(e as int)),
        decreases e,
    {
        proof {
            assert(spec_dir@.take(e as int).drop_last() =~= spec_dir@.take(e - 1));
            assert(spec_dir@.take(e as int).last() == spec_dir@[e - 1]);
        }
        e = e - 1;
    }
    let ghost q = drop_trailing_slashes(spec_dir@);
    proof {
        if e > 0 {
            assert(spec_dir@.take(e as int).last() == spec_dir@[e - 1]);
        }
        assert(q == spec_dir@.take(e as int));
    }
    if e == 0 {
        proof {
            assert(q =~= Seq::<char>::empty());
        }
        return "unknown-spec".to_owned();
    }
    let mut b: usize = e;
    proof {
        assert(q.take(e as int) =~= q);
    }
    while b > 0 && spec_dir.get_char(b - 1) != '/'
        invariant
            0 <= b <= e,
            e <= n,
            n == spec_dir@.len(),
            q == spec_dir@.take(e as int),
            last_slash(q) == last_slash(q.take(b as int)),
            forall|k: int| b <= k < e ==> spec_dir@[k] != '/',
        decreases b,
    {
        proof {
            assert(q.take(b as int).drop_last() =~= q.take(b - 1));
            assert(q.take(b as int).last() == q[b - 1]);
            assert(q[b - 1] == spec_dir@[b - 1]);
        }
        b = b - 1;
    }
    proof {
        if b > 0 {
            assert(q.take(b as int).last() == q[b - 1]);
            assert(q[b - 1] == spec_dir@[b - 1]);
            assert(last_slash(q.take(b as int)) == b - 1);
        } else {
            assert(q.take(0) =~= Seq::<char>::empty());
            assert(last_slash(q) == -1);
        }
        assert(q.skip(last_slash(q) + 1) =~= spec_dir@.subrange(b as int, e as int));
    }
    let part = spec_dir.substring_char(b, e);
    String::from_str(part)
}

} // verus!
