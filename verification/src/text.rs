//! Character-level text primitives.
//!
//! Every string the build driver handles (command-line tokens, target triples,
//! tool output, paths) is modelled as a `Seq<char>`.  The functions here move
//! between `str`/`String` and `Vec<char>` and implement the few searches the
//! driver needs, each proved against a definition over sequences.

use vstd::prelude::*;

verus! {

/// `String::push` appends one character and leaves the rest of the string
/// untouched.  This is assumed of the standard library, not proved.
pub assume_specification[ String::push ](s: &mut String, ch: char)
    ensures
        final(s)@ == old(s)@.push(ch),
;

/// `pattern` occurs in `text` starting at index `at`.
pub open spec fn occurs_at(text: Seq<char>, pattern: Seq<char>, at: int) -> bool {
    &&& 0 <= at
    &&& at + pattern.len() <= text.len()
    &&& text.subrange(at, at + pattern.len()) == pattern
}

/// `pattern` occurs somewhere in `text` as a contiguous run of characters.
pub open spec fn occurs(text: Seq<char>, pattern: Seq<char>) -> bool {
    exists|at: int| occurs_at(text, pattern, at)
}

/// The characters of `s`, in order.
pub fn chars_of(s: &str) -> (out: Vec<char>)
    ensures
        out@ == s@,
{
    let mut out: Vec<char> = Vec::new();
    for c in it: s.chars()
        invariant
            it.seq() == s@,
            out@ == it.seq().take(it.index() as int),
    {
        out.push(c);
    }
    out
}

/// The string made of `chars[from..to]`.
pub fn string_of(chars: &Vec<char>, from: usize, to: usize) -> (out: String)
    requires
        from <= to <= chars.len(),
    ensures
        out@ == chars@.subrange(from as int, to as int),
{
    let mut out = String::new();
    let mut i: usize = from;
    while i < to
        invariant
            from <= i <= to <= chars.len(),
            out@ == chars@.subrange(from as int, i as int),
        decreases to - i,
    {
        out.push(chars[i]);
        i += 1;
    }
    out
}

/// Whether `pattern` occurs in `text` at index `at`.
pub fn matches_at(text: &Vec<char>, pattern: &Vec<char>, at: usize) -> (found: bool)
    ensures
        found == occurs_at(text@, pattern@, at as int),
{
    if at > text.len() || pattern.len() > text.len() - at {
        return false;
    }
    let mut i: usize = 0;
    while i < pattern.len()
        invariant
            at + pattern.len() <= text.len(),
            i <= pattern.len(),
            text@.subrange(at as int, at + i) == pattern@.take(i as int),
        decreases pattern.len() - i,
    {
        if text[at + i] != pattern[i] {
            return false;
        }
        i += 1;
    }
    assert(pattern@.take(pattern.len() as int) == pattern@);
    true
}

/// Whether `text` begins with `pattern`.
pub fn starts_with(text: &str, pattern: &str) -> (found: bool)
    ensures
        found == pattern@.is_prefix_of(text@),
{
    let text = chars_of(text);
    let pattern = chars_of(pattern);
    matches_at(&text, &pattern, 0)
}

/// Whether `a` and `b` hold the same characters.
pub fn equal(a: &str, b: &str) -> (same: bool)
    ensures
        same == (a@ == b@),
{
    let a = chars_of(a);
    let b = chars_of(b);
    if a.len() != b.len() {
        return false;
    }
    let same = matches_at(&a, &b, 0);
    assert(a@.subrange(0, a@.len() as int) == a@);
    same
}

/// What follows `prefix` in `text`, when `text` begins with it.
pub fn strip_prefix(text: &str, prefix: &str) -> (rest: Option<String>)
    ensures
        rest is Some <==> prefix@.is_prefix_of(text@),
        rest matches Some(r) ==> r@ == text@.skip(prefix@.len() as int),
{
    let chars = chars_of(text);
    let pattern = chars_of(prefix);
    if matches_at(&chars, &pattern, 0) {
        Some(string_of(&chars, pattern.len(), chars.len()))
    } else {
        None
    }
}

/// Whether `pattern` occurs anywhere in `text`.
pub fn contains(text: &str, pattern: &str) -> (found: bool)
    ensures
        found == occurs(text@, pattern@),
{
    let chars = chars_of(text);
    let pat = chars_of(pattern);
    let mut at: usize = 0;
    while at < chars.len()
        invariant
            chars@ == text@,
            pat@ == pattern@,
            at <= chars.len(),
            forall|k: int| 0 <= k < at ==> !occurs_at(chars@, pat@, k),
        decreases chars.len() - at,
    {
        if matches_at(&chars, &pat, at) {
            return true;
        }
        at += 1;
    }
    matches_at(&chars, &pat, at)
}

/// A copy of `text`.
pub fn copy_optional(text: &Option<String>) -> (copy: Option<String>)
    ensures
        copy.deep_view() == text.deep_view(),
{
    match text {
        Some(t) => Some(t.clone()),
        None => None,
    }
}

/// A copy of `texts`.
pub fn copy_all(texts: &Vec<String>) -> (copy: Vec<String>)
    ensures
        copy.deep_view() == texts.deep_view(),
{
    let mut copy: Vec<String> = Vec::new();
    let mut i: usize = 0;
    while i < texts.len()
        invariant
            i <= texts.len(),
            copy.deep_view() == texts.deep_view().take(i as int),
        decreases texts.len() - i,
    {
        let ghost before = copy.deep_view();
        copy.push(texts[i].clone());
        assert(texts.deep_view().take(i + 1) == before.push(texts[i as int]@));
        i += 1;
    }
    copy
}

} // verus!
