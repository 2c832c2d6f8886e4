//! Program text to program lines: each line of the text cut at its first
//! `;` (the rest is a comment) and trimmed of white space; lines left empty
//! are dropped.

use vstd::prelude::*;
use crate::analyze_code::chars_of;

verus! {

/// White space as Unicode defines it (the `White_Space` property).
pub open spec fn is_white_space(c: char) -> bool {
    ('\t' <= c && c <= '\r') || c == ' ' || c == '\u{85}' || c == '\u{A0}' || c == '\u{1680}'
        || ('\u{2000}' <= c && c <= '\u{200A}') || c == '\u{2028}' || c == '\u{2029}'
        || c == '\u{202F}' || c == '\u{205F}' || c == '\u{3000}'
}

/// `s` without its leading white space.
pub open spec fn trim_start_white(s: Seq<char>) -> Seq<char>
    decreases s.len(),
{
    if s.len() > 0 && is_white_space(s[0]) {
        trim_start_white(s.drop_first())
    } else {
        s
    }
}

/// `s` without its trailing white space.
pub open spec fn trim_end_white(s: Seq<char>) -> Seq<char>
    decreases s.len(),
{
    if s.len() > 0 && is_white_space(s.last()) {
        trim_end_white(s.drop_last())
    } else {
        s
    }
}

/// `s` without leading and trailing white space.
pub open spec fn trim_white(s: Seq<char>) -> Seq<char> {
    trim_end_white(trim_start_white(s))
}

fn white_space(c: char) -> (r: bool)
    ensures
        r == is_white_space(c),
{
    ('\t' <= c && c <= '\r') || c == ' ' || c == '\u{85}' || c == '\u{A0}' || c == '\u{1680}'
        || ('\u{2000}' <= c && c <= '\u{200A}') || c == '\u{2028}' || c == '\u{2029}'
        || c == '\u{202F}' || c == '\u{205F}' || c == '\u{3000}'
}

/// Bounds `(a, b)` such that `s[a..b]` is `s[from..to]` without its leading
/// and trailing white space.
fn white_trimmed_bounds(s: &Vec<char>, from: usize, to: usize) -> (r: (usize, usize))
    requires
        from <= to <= s.len(),
    ensures
        from <= r.0 <= r.1 <= to,
        s@.subrange(r.0 as int, r.1 as int) == trim_white(s@.subrange(from as int, to as int)),
{
    let mut a: usize = from;
    while a < to && white_space(s[a])
        invariant
            from <= a <= to,
            to <= s.len(),
            trim_start_white(s@.subrange(from as int, to as int)) == trim_start_white(s@.subrange(a as int, to as int)),
        decreases to - a,
    {
        assert(s@.subrange(a as int, to as int).drop_first() =~= s@.subrange(a + 1, to as int));
        a = a + 1;
    }
    let mut b: usize = to;
    while b > a && white_space(s[b - 1])
        invariant
            from <= a <= b <= to,
            to <= s.len(),
            trim_white(s@.subrange(from as int, to as int)) == trim_end_white(s@.subrange(a as int, b as int)),
        decreases b,
    {
        assert(s@.subrange(a as int, b as int).drop_last() =~= s@.subrange(a as int, b - 1));
        b = b - 1;
    }
    (a, b)
}

/// The lines of `text`, split at each `'\n'`. A text always has at least
/// one line, possibly empty.
pub open spec fn lines_of(text: Seq<char>) -> Seq<Seq<char>>
    decreases text.len(),
{
    if text.len() == 0 {
        seq![Seq::<char>::empty()]
    } else {
        let prev = lines_of(text.drop_last());
        if text.last() == '\n' {
            prev.push(Seq::<char>::empty())
        } else {
            prev.update(prev.len() - 1, prev.last().push(text.last()))
        }
    }
}

/// The index of the first `;` of `line` at or after `i`, or its length.
pub open spec fn comment_start(line: Seq<char>, i: int) -> int
    decreases line.len() - i,
{
    if i >= line.len() || line[i] == ';' {
        i
    } else {
        comment_start(line, i + 1)
    }
}

/// The code on a line: what precedes its first `;`, trimmed of white space.
pub open spec fn code_of(line: Seq<char>) -> Seq<char> {
    trim_white(line.subrange(0, comment_start(line, 0)))
}

/// The code of each line that holds any, in order.
pub open spec fn keep_code(lines: Seq<Seq<char>>) -> Seq<Seq<char>>
    decreases lines.len(),
{
    if lines.len() == 0 {
        seq![]
    } else {
        let rest = keep_code(lines.drop_last());
        if code_of(lines.last()).len() > 0 {
            rest.push(code_of(lines.last()))
        } else {
            rest
        }
    }
}

/// The program lines of a text.
pub open spec fn program_lines(text: Seq<char>) -> Seq<Seq<char>> {
    keep_code(lines_of(text))
}

proof fn lemma_comment_start_bounds(line: Seq<char>, i: int)
    requires
        0 <= i <= line.len(),
    ensures
        i <= comment_start(line, i) <= line.len(),
    decreases line.len() - i,
{
    if i < line.len() && line[i] != ';' {
        lemma_comment_start_bounds(line, i + 1);
    }
}

/// The code of the line `chars[start..end]`, pushed onto `out` when not empty.
fn push_code(chars: &Vec<char>, text: &str, start: usize, end: usize, out: &mut Vec<String>)
    requires
        start <= end <= chars.len(),
        chars@ == text@,
    ensures
        ({
            let code = code_of(chars@.subrange(start as int, end as int));
            &&& code.len() > 0 ==> final(out)@.len() == old(out)@.len() + 1 && final(out)@.last()@ == code
                && final(out)@.drop_last() == old(out)@
            &&& code.len() == 0 ==> final(out)@ == old(out)@
        }),
{
    let ghost line = chars@.subrange(start as int, end as int);
    let mut k: usize = start;
    proof {
        lemma_comment_start_bounds(line, 0);
    }
    while k < end && chars[k] != ';'
        invariant
            start <= k <= end,
            end <= chars.len(),
            line == chars@.subrange(start as int, end as int),
            comment_start(line, 0) == comment_start(line, k - start),
        decreases end - k,
    {
        k = k + 1;
    }
    assert(comment_start(line, k - start) == k - start);
    assert(line.subrange(0, (k - start) as int) =~= chars@.subrange(start as int, k as int));
    let (a, b) = white_trimmed_bounds(chars, start, k);
    if a < b {
        let code = text.substring_char(a, b).to_owned();
        out.push(code);
        assert(final(out)@.drop_last() =~= old(out)@);
    }
}

/// Splits a program text into its program lines: every line cut at its
/// first `;` and trimmed of white space, lines that end up empty dropped.
pub fn source_lines(text: &str) -> (r: Vec<String>)
    ensures
        r.len() == program_lines(text@).len(),
        forall|i: int| 0 <= i < r.len() ==> #[trigger] r@[i]@ == program_lines(text@)[i],
{
    let chars = chars_of(text);
    let n = chars.len();
    let mut out: Vec<String> = Vec::new();
    let ghost mut done: Seq<Seq<char>> = seq![];
    let mut start: usize = 0;
    let mut i: usize = 0;
    assert(chars@.subrange(0, 0) =~= Seq::<char>::empty());
    assert(chars@.subrange(0, 0).len() == 0);
    while i < n
        invariant
            n == chars.len(),
            chars@ == text@,
            start <= i <= n,
            lines_of(chars@.subrange(0, i as int)) == done.push(chars@.subrange(start as int, i as int)),
            out.len() == keep_code(done).len(),
            forall|j: int| 0 <= j < out.len() ==> #[trigger] out@[j]@ == keep_code(done)[j],
        decreases n - i,
    {
        assert(chars@.subrange(0, i + 1).drop_last() =~= chars@.subrange(0, i as int));
        if chars[i] == '\n' {
            let ghost cur = chars@.subrange(start as int, i as int);
            let ghost before = out@;
            push_code(&chars, text, start, i, &mut out);
            proof {
                assert((done.push(cur)).drop_last() =~= done);
                assert forall|j: int| 0 <= j < out.len() implies #[trigger] out@[j]@ == keep_code(done.push(cur))[j] by {
                    if j < before.len() {
                        assert(out@[j] == before[j]);
                    }
                }
                done = done.push(cur);
                assert(chars@.subrange((i + 1) as int, (i + 1) as int) =~= Seq::<char>::empty());
            }
            start = i + 1;
        } else {
            proof {
                let prev = done.push(chars@.subrange(start as int, i as int));
                assert(chars@.subrange(start as int, i + 1) =~= chars@.subrange(start as int, i as int).push(chars@[i as int]));
                assert(prev.update(prev.len() - 1, prev.last().push(chars@[i as int]))
                    =~= done.push(chars@.subrange(start as int, i + 1)));
            }
        }
        i = i + 1;
    }
    let ghost cur = chars@.subrange(start as int, n as int);
    let ghost before = out@;
    push_code(&chars, text, start, n, &mut out);
    proof {
        assert(chars@.subrange(0, n as int) =~= text@);
        assert((done.push(cur)).drop_last() =~= done);
        assert forall|j: int| 0 <= j < out.len() implies #[trigger] out@[j]@ == keep_code(done.push(cur))[j] by {
            if j < before.len() {
                assert(out@[j] == before[j]);
            }
        }
    }
    out
}

} // verus!
