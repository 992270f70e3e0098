//! Reading what the compiler driver reports about itself.
//!
//! When the host triple or the sysroot is not given on the command line, the
//! caller runs `rustc -vV` or `rustc --print sysroot` and hands the captured
//! standard output to this module.

use crate::text::{chars_of, string_of, strip_prefix};
use vstd::prelude::*;

verus! {

/// Prefix of the line of `rustc -vV` that names the host triple.
pub open spec fn host_marker() -> Seq<char> {
    "host: "@
}

/// Number of characters before the first line feed of `text`; the length of
/// `text` when it holds none.
pub open spec fn first_break(text: Seq<char>) -> int
    decreases text.len(),
{
    if text.len() == 0 || text[0] == '\n' {
        0
    } else {
        1 + first_break(text.drop_first())
    }
}

/// `line` without one trailing carriage return.
pub open spec fn without_return(line: Seq<char>) -> Seq<char> {
    if line.len() > 0 && line.last() == '\r' {
        line.drop_last()
    } else {
        line
    }
}

/// The lines of `text`.  A line ends at a line feed; the line feed, and a
/// carriage return right before it, belong to no line.  Text after the last
/// line feed is a line of its own, kept as it is; an empty text has no line.
pub open spec fn lines_of(text: Seq<char>) -> Seq<Seq<char>>
    decreases text.len(),
{
    if text.len() == 0 {
        Seq::empty()
    } else {
        let end = first_break(text);
        if 0 <= end < text.len() {
            seq![without_return(text.take(end))] + lines_of(text.skip(end + 1))
        } else {
            seq![text]
        }
    }
}

/// What follows `prefix` in the first of `lines` that begins with `prefix`.
pub open spec fn first_tagged(lines: Seq<Seq<char>>, prefix: Seq<char>) -> Option<Seq<char>>
    decreases lines.len(),
{
    if lines.len() == 0 {
        None
    } else if prefix.is_prefix_of(lines.first()) {
        Some(lines.first().skip(prefix.len() as int))
    } else {
        first_tagged(lines.drop_first(), prefix)
    }
}

/// The host triple that the verbose version report `output` names.
pub open spec fn reported_host(output: Seq<char>) -> Option<Seq<char>> {
    first_tagged(lines_of(output), host_marker())
}

/// `c` has the Unicode property `White_Space`.
pub open spec fn is_whitespace(c: char) -> bool {
    let n = c as u32;
    ||| 0x09 <= n <= 0x0d
    ||| n == 0x20
    ||| n == 0x85
    ||| n == 0xa0
    ||| n == 0x1680
    ||| 0x2000 <= n <= 0x200a
    ||| n == 0x2028
    ||| n == 0x2029
    ||| n == 0x202f
    ||| n == 0x205f
    ||| n == 0x3000
}

/// `text` without the white space at its end.
pub open spec fn trimmed_end(text: Seq<char>) -> Seq<char>
    decreases text.len(),
{
    if text.len() > 0 && is_whitespace(text.last()) {
        trimmed_end(text.drop_last())
    } else {
        text
    }
}

/// `first_break` is the index of the first line feed.
pub proof fn lemma_first_break(text: Seq<char>, end: int)
    requires
        0 <= end <= text.len(),
        forall|k: int| 0 <= k < end ==> text[k] != '\n',
        end < text.len() ==> text[end] == '\n',
    ensures
        first_break(text) == end,
    decreases end,
{
    if end > 0 {
        lemma_first_break(text.drop_first(), end - 1);
    }
}

/// Splits `text` into its lines.
pub fn split_lines(text: &str) -> (lines: Vec<String>)
    ensures
        lines.deep_view() == lines_of(text@),
{
    let chars = chars_of(text);
    let mut lines: Vec<String> = Vec::new();
    let mut start: usize = 0;
    assert(chars@.skip(0) == chars@);
    while start < chars.len()
        invariant
            start <= chars.len(),
            lines.deep_view() + lines_of(chars@.skip(start as int)) == lines_of(chars@),
        decreases chars.len() - start,
    {
        let ghost rest = chars@.skip(start as int);
        let mut end: usize = start;
        while end < chars.len() && chars[end] != '\n'
            invariant
                start <= end <= chars.len(),
                forall|k: int| start <= k < end ==> chars@[k] != '\n',
            decreases chars.len() - end,
        {
            end += 1;
        }
        proof {
            lemma_first_break(rest, end - start);
        }
        if end == chars.len() {
            let line = string_of(&chars, start, end);
            lines.push(line);
            start = end;
        } else {
            let stop = if end > start && chars[end - 1] == '\r' {
                end - 1
            } else {
                end
            };
            let line = string_of(&chars, start, stop);
            assert(line@ == without_return(rest.take(end - start)));
            lines.push(line);
            assert(rest.skip(end - start + 1) == chars@.skip(end + 1));
            start = end + 1;
        }
    }
    lines
}

/// The host triple named by `output`, the standard output of `rustc -vV`:
/// what follows `host: ` on the first line that begins so.
pub fn host_from(output: &str) -> (host: Option<String>)
    ensures
        host.deep_view() == reported_host(output@),
{
    let lines = split_lines(output);
    let mut i: usize = 0;
    assert(lines.deep_view().skip(0) == lines.deep_view());
    while i < lines.len()
        invariant
            i <= lines.len(),
            lines.deep_view() == lines_of(output@),
            first_tagged(lines.deep_view().skip(i as int), host_marker()) == first_tagged(
                lines.deep_view(),
                host_marker(),
            ),
        decreases lines.len() - i,
    {
        let ghost rest = lines.deep_view().skip(i as int);
        assert(rest.drop_first() == lines.deep_view().skip(i + 1));
        if let Some(host) = strip_prefix(lines[i].as_str(), "host: ") {
            return Some(host);
        }
        i += 1;
    }
    None
}

/// Whether `c` is white space.
pub fn whitespace(c: char) -> (yes: bool)
    ensures
        yes == is_whitespace(c),
{
    let n: u32 = c as u32;
    (0x09 <= n && n <= 0x0d) || n == 0x20 || n == 0x85 || n == 0xa0 || n == 0x1680 || (0x2000 <= n
        && n <= 0x200a) || n == 0x2028 || n == 0x2029 || n == 0x202f || n == 0x205f || n == 0x3000
}

/// The sysroot named by `output`, the standard output of
/// `rustc --print sysroot`: the output without its trailing white space.
pub fn sysroot_from(output: &str) -> (sysroot: String)
    ensures
        sysroot@ == trimmed_end(output@),
{
    let chars = chars_of(output);
    let mut end: usize = chars.len();
    assert(chars@.take(end as int) == chars@);
    while end > 0 && whitespace(chars[end - 1])
        invariant
            end <= chars.len(),
            trimmed_end(chars@.take(end as int)) == trimmed_end(chars@),
        decreases end,
    {
        assert(chars@.take(end as int).drop_last() == chars@.take(end - 1));
        end -= 1;
    }
    string_of(&chars, 0, end)
}

} // verus!
