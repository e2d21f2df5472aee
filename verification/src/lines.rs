//! Lines of a text and their display numbers.

use crate::text::texts;
use vstd::prelude::*;

verus! {

/// The length of the first line of `s`: the number of characters before its
/// first newline, or all of them where it has none.
pub open spec fn line_end(s: Seq<char>) -> nat
    decreases s.len(),
{
    if s.len() == 0 || s[0] == '\n' {
        0
    } else {
        1 + line_end(s.skip(1))
    }
}

/// The lines of `s`, without their newlines. A newline ends a line; text
/// after the last newline is a line of its own, and the empty text has no
/// lines.
pub open spec fn split_lines(s: Seq<char>) -> Seq<Seq<char>>
    decreases s.len(),
{
    if s.len() == 0 {
        Seq::empty()
    } else {
        let k = line_end(s) as int;
        if k < s.len() {
            seq![s.take(k)] + split_lines(s.skip(k + 1))
        } else {
            seq![s]
        }
    }
}

/// The number of lines of `s`.
pub open spec fn line_count(s: Seq<char>) -> nat {
    split_lines(s).len()
}

/// Where the first `k` characters hold no newline and the text ends there or
/// has a newline there, the first line has length `k`.
proof fn lemma_line_end_is(s: Seq<char>, k: int)
    requires
        0 <= k <= s.len(),
        forall|j: int| 0 <= j < k ==> s[j] != '\n',
        k == s.len() || s[k] == '\n',
    ensures
        line_end(s) == k,
    decreases s.len(),
{
    if k > 0 {
        let t = s.skip(1);
        assert forall|j: int| 0 <= j < k - 1 implies t[j] != '\n' by {
            assert(t[j] == s[j + 1]);
        }
        lemma_line_end_is(t, k - 1);
    }
}

/// Splits `s` into its lines. No line holds a newline.
pub fn split_on_newlines(s: &str) -> (lines: Vec<String>)
    ensures
        texts(lines@) == split_lines(s@),
{
    let mut lines: Vec<String> = Vec::new();
    let mut current = String::new();
    let ghost mut start: int = 0;
    proof {
        assert(s@.skip(0) =~= s@);
        assert(texts(lines@) + split_lines(s@) =~= split_lines(s@));
    }
    for c in it: s.chars()
        invariant
            it.seq() == s@,
            0 <= start <= it.index(),
            current@ == s@.subrange(start, it.index() as int),
            forall|j: int| start <= j < it.index() ==> s@[j] != '\n',
            split_lines(s@) == texts(lines@) + split_lines(s@.skip(start)),
    {
        let ghost i = it.index() as int;
        if c == '\n' {
            proof {
                let rest = s@.skip(start);
                assert forall|j: int| 0 <= j < i - start implies rest[j] != '\n' by {
                    assert(rest[j] == s@[start + j]);
                }
                lemma_line_end_is(rest, i - start);
                assert(rest.take(i - start) =~= current@);
                assert(rest.skip(i - start + 1) =~= s@.skip(i + 1));
                assert(texts(lines@.push(current)) =~= texts(lines@).push(current@));
                assert(texts(lines@).push(current@) + split_lines(s@.skip(i + 1)) =~= texts(lines@)
                    + (seq![current@] + split_lines(s@.skip(i + 1))));
            }
            lines.push(current);
            current = String::new();
            proof {
                start = i + 1;
            }
        } else {
            current.push(c);
            assert(current@ =~= s@.subrange(start, i + 1));
        }
    }
    proof {
        let rest = s@.skip(start);
        assert(rest =~= current@);
        if rest.len() > 0 {
            assert forall|j: int| 0 <= j < rest.len() implies rest[j] != '\n' by {
                assert(rest[j] == s@[start + j]);
            }
            lemma_line_end_is(rest, rest.len() as int);
            assert(split_lines(rest) =~= seq![current@]);
            assert(texts(lines@.push(current)) =~= texts(lines@).push(current@));
        } else {
            assert(texts(lines@) + split_lines(rest) =~= texts(lines@));
        }
    }
    if !current.as_str().is_empty() {
        lines.push(current);
    }
    lines
}

/// The number of lines of `s`.
pub fn count_lines(s: &str) -> (count: usize)
    ensures
        count == line_count(s@),
{
    let lines = split_on_newlines(s);
    assert(texts(lines@).len() == lines@.len());
    lines.len()
}

/// The character that shows the decimal digit `d`.
pub open spec fn digit_char(d: nat) -> char {
    if d == 0 {
        '0'
    } else if d == 1 {
        '1'
    } else if d == 2 {
        '2'
    } else if d == 3 {
        '3'
    } else if d == 4 {
        '4'
    } else if d == 5 {
        '5'
    } else if d == 6 {
        '6'
    } else if d == 7 {
        '7'
    } else if d == 8 {
        '8'
    } else {
        '9'
    }
}

/// The decimal numeral of `n`, most significant digit first, without leading
/// zeros.
pub open spec fn decimal(n: nat) -> Seq<char>
    decreases n,
{
    if n < 10 {
        seq![digit_char(n)]
    } else {
        decimal(n / 10).push(digit_char(n % 10))
    }
}

/// The number under which the line at the zero-based index `line` is shown:
/// the numeral of `line + 1`.
pub open spec fn line_number_text(line: nat) -> Seq<char> {
    decimal(line + 1)
}

fn digit(d: u128) -> (c: char)
    requires
        d < 10,
    ensures
        c == digit_char(d as nat),
{
    if d == 0 {
        '0'
    } else if d == 1 {
        '1'
    } else if d == 2 {
        '2'
    } else if d == 3 {
        '3'
    } else if d == 4 {
        '4'
    } else if d == 5 {
        '5'
    } else if d == 6 {
        '6'
    } else if d == 7 {
        '7'
    } else if d == 8 {
        '8'
    } else {
        '9'
    }
}

/// Appends the decimal numeral of `n` to `out`.
pub fn push_decimal(out: &mut String, n: u128)
    ensures
        final(out)@ == old(out)@ + decimal(n as nat),
    decreases n,
{
    if n >= 10 {
        push_decimal(out, n / 10);
    }
    out.push(digit(n % 10));
    assert(out@ =~= old(out)@ + decimal(n as nat));
}

/// The one-based display number of the line at the zero-based index `line`.
pub fn format_line_num(line: usize) -> (text: String)
    ensures
        text@ == line_number_text(line as nat),
{
    let mut text = String::new();
    push_decimal(&mut text, line as u128 + 1);
    assert(text@ =~= decimal((line + 1) as nat));
    text
}

} // verus!
