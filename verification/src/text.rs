//! Plain-text rendering of message bodies: removal of ANSI escape sequences
//! and of HTML tags, as done before a body is shown in a terminal.

use vstd::prelude::*;
use crate::chars::{lemma_trim_idempotent, 
    chars_of, is_ascii_alpha, is_ascii_alphabetic, lemma_trim_chars, string_from_chars, trim,
    trim_bounds,
};

verus! {

/// The escape character that opens an ANSI sequence.
pub open spec fn esc() -> char {
    '\x1b'
}

/// A character that ends a CSI sequence: an ASCII letter or `~`.
pub open spec fn is_csi_final(c: char) -> bool {
    is_ascii_alpha(c) || c == '~'
}

/// Index just past the first sequence terminator at or after `j`
/// (the terminator is consumed), or the end of `s` if there is none.
pub open spec fn csi_end(s: Seq<char>, j: int) -> int
    decreases s.len() - j,
{
    if j >= s.len() {
        s.len() as int
    } else if is_csi_final(s[j]) {
        j + 1
    } else {
        csi_end(s, j + 1)
    }
}

proof fn lemma_csi_end_bounds(s: Seq<char>, j: int)
    requires
        0 <= j <= s.len(),
    ensures
        j <= csi_end(s, j) <= s.len(),
        j < s.len() ==> j < csi_end(s, j),
    decreases s.len() - j,
{
    if j < s.len() && !is_csi_final(s[j]) {
        lemma_csi_end_bounds(s, j + 1);
    }
}

/// The characters of `s` from index `i` on, with ANSI sequences removed:
/// `ESC [` starts a sequence running through its terminator (or to the end
/// of the text); a lone `ESC` is dropped and what follows it is kept.
pub open spec fn ansi_strip_from(s: Seq<char>, i: int) -> Seq<char>
    decreases s.len() - i,
{
    if i < 0 || i >= s.len() {
        Seq::empty()
    } else if s[i] == esc() {
        if i + 1 < s.len() && s[i + 1] == '[' {
            let e = csi_end(s, i + 2);
            if i < e <= s.len() {
                ansi_strip_from(s, e)
            } else {
                Seq::empty()
            }
        } else {
            ansi_strip_from(s, i + 1)
        }
    } else {
        seq![s[i]] + ansi_strip_from(s, i + 1)
    }
}

/// `s` with ANSI escape sequences removed.
pub open spec fn ansi_stripped(s: Seq<char>) -> Seq<char> {
    ansi_strip_from(s, 0)
}

/// Removes ANSI escape sequences (`ESC [ ... final`) from `text`.
pub fn strip_ansi(text: &str) -> (out: String)
    ensures
        out@ == ansi_stripped(text@),
{
    let v = chars_of(text);
    let mut res: Vec<char> = Vec::new();
    let mut i: usize = 0;
    while i < v.len()
        invariant
            i <= v.len(),
            ansi_stripped(v@) == res@ + ansi_strip_from(v@, i as int),
        decreases v.len() - i,
    {
        let ch = v[i];
        if ch == '\x1b' {
            if i + 1 < v.len() && v[i + 1] == '[' {
                let mut j = i + 2;
                let mut done = false;
                while j < v.len() && !done
                    invariant
                        i + 2 <= j <= v.len(),
                        done ==> csi_end(v@, i + 2) == j,
                        !done ==> csi_end(v@, i + 2) == csi_end(v@, j as int),
                    decreases v.len() - j,
                {
                    let next = v[j];
                    j += 1;
                    if is_ascii_alphabetic(next) || next == '~' {
                        done = true;
                    }
                }
                assert(csi_end(v@, i + 2) == j);
                i = j;
            } else {
                i += 1;
            }
        } else {
            res.push(ch);
            assert(res@ + ansi_strip_from(v@, i + 1) =~= (res@.drop_last() + seq![ch])
                + ansi_strip_from(v@, i + 1));
            i += 1;
        }
    }
    string_from_chars(&res)
}

proof fn lemma_ansi_strip_no_esc(s: Seq<char>, i: int)
    ensures
        !ansi_strip_from(s, i).contains(esc()),
    decreases s.len() - i,
{
    if i < 0 || i >= s.len() {
    } else if s[i] == esc() {
        if i + 1 < s.len() && s[i + 1] == '[' {
            let e = csi_end(s, i + 2);
            lemma_csi_end_bounds(s, i + 2);
            if i < e <= s.len() {
                lemma_ansi_strip_no_esc(s, e);
            }
        } else {
            lemma_ansi_strip_no_esc(s, i + 1);
        }
    } else {
        lemma_ansi_strip_no_esc(s, i + 1);
        let r = ansi_strip_from(s, i + 1);
        assert forall|k: int| 0 <= k < (seq![s[i]] + r).len() implies (seq![s[i]] + r)[k]
            != esc() by {
            if k > 0 {
                assert((seq![s[i]] + r)[k] == r[k - 1]);
            }
        }
    }
}

proof fn lemma_ansi_strip_identity(s: Seq<char>, i: int)
    requires
        0 <= i <= s.len(),
        !s.contains(esc()),
    ensures
        ansi_strip_from(s, i) == s.skip(i),
    decreases s.len() - i,
{
    if i < s.len() {
        assert(s[i] != esc());
        lemma_ansi_strip_identity(s, i + 1);
        assert(s.skip(i) =~= seq![s[i]] + s.skip(i + 1));
    } else {
        assert(s.skip(i) =~= Seq::<char>::empty());
    }
}

/// No escape character survives `strip_ansi`.
pub proof fn ansi_stripped_has_no_escape(s: Seq<char>)
    ensures
        !ansi_stripped(s).contains(esc()),
{
    lemma_ansi_strip_no_esc(s, 0);
}

/// Text without an escape character is left as it is by `strip_ansi`.
pub proof fn ansi_stripped_keeps_plain_text(s: Seq<char>)
    requires
        !s.contains(esc()),
    ensures
        ansi_stripped(s) == s,
{
    lemma_ansi_strip_identity(s, 0);
    assert(s.skip(0) =~= s);
}

/// Stripping twice gives what stripping once gives.
pub proof fn ansi_stripped_idempotent(s: Seq<char>)
    ensures
        ansi_stripped(ansi_stripped(s)) == ansi_stripped(s),
{
    ansi_stripped_has_no_escape(s);
    ansi_stripped_keeps_plain_text(ansi_stripped(s));
}

// ── HTML tag stripping ─────────────────────────────────────────────────────

/// The characters of `s` from `i` on that lie outside tags: `<` opens a tag,
/// `>` closes one, and neither bracket is kept.
pub open spec fn untag_from(s: Seq<char>, i: int, in_tag: bool) -> Seq<char>
    decreases s.len() - i,
{
    if i < 0 || i >= s.len() {
        Seq::empty()
    } else if s[i] == '<' {
        untag_from(s, i + 1, true)
    } else if s[i] == '>' {
        untag_from(s, i + 1, false)
    } else if !in_tag {
        seq![s[i]] + untag_from(s, i + 1, in_tag)
    } else {
        untag_from(s, i + 1, in_tag)
    }
}

/// Index of the first `\n` at or after `i`, or the end of `s`.
pub open spec fn line_end(s: Seq<char>, i: int) -> int
    decreases s.len() - i,
{
    if i >= s.len() {
        s.len() as int
    } else if s[i] == '\n' {
        i
    } else {
        line_end(s, i + 1)
    }
}

proof fn lemma_line_end_bounds(s: Seq<char>, i: int)
    requires
        0 <= i <= s.len(),
    ensures
        i <= line_end(s, i) <= s.len(),
        line_end(s, i) < s.len() ==> s[line_end(s, i)] == '\n',
    decreases s.len() - i,
{
    if i < s.len() && s[i] != '\n' {
        lemma_line_end_bounds(s, i + 1);
    }
}

/// The lines of `s` from index `i` on, each trimmed and ended by `\n`;
/// a run of blank lines becomes a single empty line. `prev_blank` tells
/// whether the line before `i` was blank.
pub open spec fn clean_lines_from(s: Seq<char>, i: int, prev_blank: bool) -> Seq<char>
    decreases s.len() - i,
{
    if i < 0 || i >= s.len() {
        Seq::empty()
    } else {
        let e = line_end(s, i);
        if e < i || e > s.len() {
            Seq::empty()
        } else {
            let t = trim(s.subrange(i, e));
            let blank = t.len() == 0;
            let tail = if e < s.len() {
                clean_lines_from(s, e + 1, blank)
            } else {
                Seq::empty()
            };
            if blank {
                if prev_blank {
                    tail
                } else {
                    seq!['\n'] + tail
                }
            } else {
                t + seq!['\n'] + tail
            }
        }
    }
}

/// `html` with tags removed and its lines tidied.
pub open spec fn html_stripped(html: Seq<char>) -> Seq<char> {
    clean_lines_from(untag_from(html, 0, false), 0, false)
}

/// Removes HTML tags from `html` and tidies the remaining lines: each line is
/// trimmed, and consecutive blank lines collapse into one.
pub fn strip_html_tags(html: &str) -> (out: String)
    ensures
        out@ == html_stripped(html@),
{
    let v = chars_of(html);
    let mut result: Vec<char> = Vec::new();
    let mut in_tag = false;
    let mut i: usize = 0;
    while i < v.len()
        invariant
            i <= v.len(),
            untag_from(v@, 0, false) == result@ + untag_from(v@, i as int, in_tag),
        decreases v.len() - i,
    {
        let ch = v[i];
        if ch == '<' {
            in_tag = true;
        } else if ch == '>' {
            in_tag = false;
        } else if !in_tag {
            result.push(ch);
            assert(result@ + untag_from(v@, i + 1, in_tag) =~= (result@.drop_last() + seq![ch])
                + untag_from(v@, i + 1, in_tag));
        }
        i += 1;
    }
    assert(result@ + untag_from(v@, i as int, in_tag) =~= result@);
    let r = result;
    let mut cleaned: Vec<char> = Vec::new();
    let mut prev_blank = false;
    let mut i: usize = 0;
    while i < r.len()
        invariant
            i <= r.len(),
            clean_lines_from(r@, 0, false) == cleaned@ + clean_lines_from(
                r@,
                i as int,
                prev_blank,
            ),
        decreases r.len() - i,
    {
        let mut e = i;
        while e < r.len() && r[e] != '\n'
            invariant
                i <= e <= r.len(),
                line_end(r@, i as int) == line_end(r@, e as int),
            decreases r.len() - e,
        {
            e += 1;
        }
        proof {
            lemma_line_end_bounds(r@, i as int);
        }
        assert(line_end(r@, i as int) == e);
        let (a, b) = trim_bounds(&r, i, e);
        let ghost before = cleaned@;
        let ghost tail_blank = clean_lines_from(r@, if e < r.len() { e + 1 } else { r.len() as int }, true);
        let ghost tail_full = clean_lines_from(r@, if e < r.len() { e + 1 } else { r.len() as int }, false);
        if a == b {
            if !prev_blank {
                cleaned.push('\n');
                assert(cleaned@ =~= before + seq!['\n']);
                assert(before + (seq!['\n'] + tail_blank) =~= cleaned@ + tail_blank);
            }
            prev_blank = true;
        } else {
            let mut k = a;
            while k < b
                invariant
                    a <= k <= b <= r.len(),
                    cleaned@ == before + r@.subrange(a as int, k as int),
                decreases b - k,
            {
                cleaned.push(r[k]);
                assert(r@.subrange(a as int, k + 1) =~= r@.subrange(a as int, k as int).push(
                    r[k as int],
                ));
                k += 1;
            }
            cleaned.push('\n');
            let ghost t = r@.subrange(a as int, b as int);
            assert(cleaned@ =~= before + t + seq!['\n']);
            assert(before + (t + seq!['\n'] + tail_full) =~= cleaned@ + tail_full);
            prev_blank = false;
        }
        if e < r.len() {
            i = e + 1;
        } else {
            i = r.len();
        }
    }
    assert(cleaned@ + clean_lines_from(r@, i as int, prev_blank) =~= cleaned@);
    string_from_chars(&cleaned)
}

proof fn lemma_untag_no_brackets(s: Seq<char>, i: int, in_tag: bool)
    ensures
        !untag_from(s, i, in_tag).contains('<'),
        !untag_from(s, i, in_tag).contains('>'),
    decreases s.len() - i,
{
    if i < 0 || i >= s.len() {
    } else if s[i] == '<' {
        lemma_untag_no_brackets(s, i + 1, true);
    } else if s[i] == '>' {
        lemma_untag_no_brackets(s, i + 1, false);
    } else if !in_tag {
        lemma_untag_no_brackets(s, i + 1, in_tag);
        let r = untag_from(s, i + 1, in_tag);
        let w = seq![s[i]] + r;
        assert forall|k: int| 0 <= k < w.len() implies w[k] != '<' && w[k] != '>' by {
            if k > 0 {
                assert(w[k] == r[k - 1]);
            }
        }
    } else {
        lemma_untag_no_brackets(s, i + 1, in_tag);
    }
}

proof fn lemma_clean_lines_chars(s: Seq<char>, i: int, prev_blank: bool)
    requires
        0 <= i,
    ensures
        forall|k: int|
            0 <= k < clean_lines_from(s, i, prev_blank).len() ==> {
                let c = #[trigger] clean_lines_from(s, i, prev_blank)[k];
                c == '\n' || s.contains(c)
            },
    decreases s.len() - i,
{
    if i < s.len() {
        let e = line_end(s, i);
        lemma_line_end_bounds(s, i);
        let line = s.subrange(i, e);
        let t = trim(line);
        lemma_trim_chars(line);
        let blank = t.len() == 0;
        let tail = if e < s.len() {
            clean_lines_from(s, e + 1, blank)
        } else {
            Seq::empty()
        };
        if e < s.len() {
            lemma_clean_lines_chars(s, e + 1, blank);
        }
        assert forall|k: int| 0 <= k < tail.len() implies {
            let c = #[trigger] tail[k];
            c == '\n' || s.contains(c)
        } by {}
        if blank {
            if !prev_blank {
                let w = seq!['\n'] + tail;
                assert forall|k: int| 0 <= k < w.len() implies {
                    let c = #[trigger] w[k];
                    c == '\n' || s.contains(c)
                } by {
                    if k > 0 {
                        assert(w[k] == tail[k - 1]);
                    }
                }
            }
        } else {
            let w = t + seq!['\n'] + tail;
            assert forall|k: int| 0 <= k < w.len() implies {
                let c = #[trigger] w[k];
                c == '\n' || s.contains(c)
            } by {
                if k < t.len() {
                    assert(w[k] == t[k]);
                    assert(line.contains(t[k]));
                    let j = choose|j: int| 0 <= j < line.len() && line[j] == t[k];
                    assert(s[i + j] == t[k]);
                } else if k == t.len() {
                    assert(w[k] == '\n');
                } else {
                    assert(w[k] == tail[k - t.len() - 1]);
                }
            }
        }
    }
}

/// No tag bracket survives `strip_html_tags`.
pub proof fn html_stripped_has_no_brackets(html: Seq<char>)
    ensures
        !html_stripped(html).contains('<'),
        !html_stripped(html).contains('>'),
{
    let u = untag_from(html, 0, false);
    lemma_untag_no_brackets(html, 0, false);
    lemma_clean_lines_chars(u, 0, false);
    let o = html_stripped(html);
    assert forall|k: int| 0 <= k < o.len() implies o[k] != '<' && o[k] != '>' by {
        let c = o[k];
        if c != '\n' {
            assert(u.contains(c));
        }
    }
}

proof fn lemma_untag_identity(s: Seq<char>, i: int)
    requires
        0 <= i <= s.len(),
        !s.contains('<'),
        !s.contains('>'),
    ensures
        untag_from(s, i, false) == s.skip(i),
    decreases s.len() - i,
{
    if i < s.len() {
        assert(s[i] != '<' && s[i] != '>');
        lemma_untag_identity(s, i + 1);
        assert(seq![s[i]] + s.skip(i + 1) =~= s.skip(i));
    } else {
        assert(s.skip(i) =~= Seq::<char>::empty());
    }
}

proof fn lemma_line_end_skip(s: Seq<char>, j: int, m: int)
    requires
        0 <= j <= m <= s.len(),
        forall|k: int| j <= k < m ==> s[k] != '\n',
    ensures
        line_end(s, j) == line_end(s, m),
    decreases m - j,
{
    if j < m {
        lemma_line_end_skip(s, j + 1, m);
    }
}

proof fn lemma_line_end_shift(p: Seq<char>, q: Seq<char>, j: int)
    requires
        0 <= j <= q.len(),
    ensures
        line_end(p + q, p.len() + j) == p.len() + line_end(q, j),
    decreases q.len() - j,
{
    if j < q.len() {
        assert((p + q)[p.len() + j] == q[j]);
        if q[j] != '\n' {
            lemma_line_end_shift(p, q, j + 1);
        }
    }
}

proof fn lemma_line_has_no_newline(s: Seq<char>, i: int)
    requires
        0 <= i <= s.len(),
    ensures
        forall|k: int| i <= k < line_end(s, i) ==> s[k] != '\n',
    decreases s.len() - i,
{
    if i < s.len() && s[i] != '\n' {
        lemma_line_has_no_newline(s, i + 1);
    }
}

proof fn lemma_clean_shift(p: Seq<char>, q: Seq<char>, j: int, b: bool)
    requires
        0 <= j,
    ensures
        clean_lines_from(p + q, p.len() + j, b) == clean_lines_from(q, j, b),
    decreases q.len() - j,
{
    let pq = p + q;
    if j < q.len() {
        lemma_line_end_shift(p, q, j);
        lemma_line_end_bounds(q, j);
        let e = line_end(q, j);
        assert(pq.subrange(p.len() + j, p.len() + e) =~= q.subrange(j, e));
        let blank = trim(q.subrange(j, e)).len() == 0;
        if e < q.len() {
            lemma_clean_shift(p, q, e + 1, blank);
        }
    }
}

proof fn lemma_clean_lines_idempotent(s: Seq<char>, i: int, pb: bool)
    requires
        0 <= i,
    ensures
        clean_lines_from(clean_lines_from(s, i, pb), 0, pb) == clean_lines_from(s, i, pb),
    decreases s.len() - i,
{
    let c = clean_lines_from(s, i, pb);
    if i >= s.len() {
        assert(c =~= Seq::<char>::empty());
    } else {
        lemma_line_end_bounds(s, i);
        let e = line_end(s, i);
        let line = s.subrange(i, e);
        let t = trim(line);
        let blank = t.len() == 0;
        let tail = if e < s.len() {
            clean_lines_from(s, e + 1, blank)
        } else {
            Seq::empty()
        };
        if e < s.len() {
            lemma_clean_lines_idempotent(s, e + 1, blank);
        }
        assert(clean_lines_from(tail, 0, blank) == tail);
        if blank {
            if !pb {
                let nl = seq!['\n'];
                assert(c == nl + tail);
                assert(line_end(c, 0) == 0);
                assert(c.subrange(0, 0) =~= Seq::<char>::empty());
                assert(trim(Seq::<char>::empty()) =~= Seq::<char>::empty());
                lemma_clean_shift(nl, tail, 0, true);
                assert(clean_lines_from(c, 1, true) == tail);
            }
        } else {
            let nl = seq!['\n'];
            let head = t + nl;
            assert(c == head + tail);
            assert(c =~= t + (nl + tail));
            lemma_line_has_no_newline(s, i);
            lemma_trim_chars(line);
            assert forall|k: int| 0 <= k < t.len() implies c[k] != '\n' by {
                assert(c[k] == t[k]);
                assert(line.contains(t[k]));
                let m = choose|m: int| 0 <= m < line.len() && line[m] == t[k];
                assert(s[i + m] == t[k]);
            }
            lemma_line_end_skip(c, 0, t.len() as int);
            assert(c[t.len() as int] == '\n');
            assert(line_end(c, t.len() as int) == t.len());
            assert(c.subrange(0, t.len() as int) =~= t);
            lemma_trim_idempotent(line);
            lemma_clean_shift(head, tail, 0, false);
            assert(clean_lines_from(c, head.len() as int, false) == tail);
        }
    }
}

/// Stripping tags from text that `strip_html_tags` already produced changes
/// nothing: the operation is idempotent.
pub proof fn html_stripped_idempotent(html: Seq<char>)
    ensures
        html_stripped(html_stripped(html)) == html_stripped(html),
{
    let o = html_stripped(html);
    html_stripped_has_no_brackets(html);
    lemma_untag_identity(o, 0);
    assert(o.skip(0) =~= o);
    lemma_clean_lines_idempotent(untag_from(html, 0, false), 0, false);
}

} // verus!
