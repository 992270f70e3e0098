//! Paths as text.
//!
//! A path is a string whose components are separated by `/`.  The functions
//! here build paths below the toolchain's sysroot and take apart the paths of
//! the files found in the output directory.

use crate::text::{chars_of, string_of};
use vstd::prelude::*;
use vstd::string::StringExecFns;

verus! {

/// Where the runtime's source tree lies below the sysroot.
pub open spec fn source_subpath() -> Seq<char> {
    "lib/rustlib/src/rust/src/llvm-project/libunwind"@
}

/// `rest` appended below `base`: a `/` is put between the two unless `base` is
/// empty or already ends in one.
pub open spec fn joined(base: Seq<char>, rest: Seq<char>) -> Seq<char> {
    if base.len() == 0 || base.last() == '/' {
        base + rest
    } else {
        base + seq!['/'] + rest
    }
}

/// The runtime's source tree of the toolchain installed at `sysroot`.
pub open spec fn source_root_of(sysroot: Seq<char>) -> Seq<char> {
    joined(sysroot, source_subpath())
}

/// Number of characters of `text` up to and including the last `mark`; zero
/// when `text` holds no `mark`.
pub open spec fn after_last(text: Seq<char>, mark: char) -> int
    decreases text.len(),
{
    if text.len() == 0 {
        0
    } else if text.last() == mark {
        text.len() as int
    } else {
        after_last(text.drop_last(), mark)
    }
}

/// The final component of `path`: what follows its last `/`.
pub open spec fn file_name_of(path: Seq<char>) -> Seq<char> {
    path.skip(after_last(path, '/'))
}

/// Whether the file name `name` is split at its last `.` into a stem and an
/// extension.  It is not when it holds no `.`, when its only `.` comes first,
/// or when it is `..`.
pub open spec fn has_extension(name: Seq<char>) -> bool {
    after_last(name, '.') >= 2 && name != seq!['.', '.']
}

/// The extension of the file name `name`: what follows its last `.`.
pub open spec fn extension_of(name: Seq<char>) -> Option<Seq<char>> {
    if has_extension(name) {
        Some(name.skip(after_last(name, '.')))
    } else {
        None
    }
}

/// The stem of the file name `name`: what comes before the `.` of its
/// extension, or all of `name` when it has no extension.
pub open spec fn stem_of(name: Seq<char>) -> Seq<char> {
    if has_extension(name) {
        name.take(after_last(name, '.') - 1)
    } else {
        name
    }
}

/// Appends `rest` below `base`.
pub fn join(base: &str, rest: &str) -> (path: String)
    ensures
        path@ == joined(base@, rest@),
{
    let chars = chars_of(base);
    let mut path = string_of(&chars, 0, chars.len());
    if chars.len() > 0 && chars[chars.len() - 1] != '/' {
        path.push('/');
    }
    path.append(rest);
    path
}

/// The source tree of the runtime below `sysroot`.
pub fn source_root(sysroot: &str) -> (root: String)
    ensures
        root@ == source_root_of(sysroot@),
{
    join(sysroot, "lib/rustlib/src/rust/src/llvm-project/libunwind")
}

/// Index just behind the last `mark` of `chars`.
pub fn find_after_last(chars: &Vec<char>, mark: char) -> (at: usize)
    ensures
        at == after_last(chars@, mark),
        at <= chars.len(),
{
    let mut at: usize = chars.len();
    assert(chars@.take(at as int) == chars@);
    while at > 0 && chars[at - 1] != mark
        invariant
            at <= chars.len(),
            after_last(chars@.take(at as int), mark) == after_last(chars@, mark),
        decreases at,
    {
        assert(chars@.take(at as int).drop_last() == chars@.take(at - 1));
        at -= 1;
    }
    at
}

/// The final component of `path`.
pub fn file_name(path: &str) -> (name: String)
    ensures
        name@ == file_name_of(path@),
{
    let chars = chars_of(path);
    let from = find_after_last(&chars, '/');
    string_of(&chars, from, chars.len())
}

/// Whether `chars` is the file name `..`.
fn is_parent(chars: &Vec<char>) -> (yes: bool)
    ensures
        yes == (chars@ == seq!['.', '.']),
{
    if chars.len() == 2 && chars[0] == '.' && chars[1] == '.' {
        assert(chars@ =~= seq!['.', '.']);
        true
    } else {
        false
    }
}

/// The extension of the file name `name`.
pub fn extension(name: &str) -> (ext: Option<String>)
    ensures
        ext.deep_view() == extension_of(name@),
{
    let chars = chars_of(name);
    let from = find_after_last(&chars, '.');
    if from >= 2 && !is_parent(&chars) {
        Some(string_of(&chars, from, chars.len()))
    } else {
        None
    }
}

/// The stem of the file name `name`.
pub fn stem(name: &str) -> (stem: String)
    ensures
        stem@ == stem_of(name@),
{
    let chars = chars_of(name);
    let from = find_after_last(&chars, '.');
    if from >= 2 && !is_parent(&chars) {
        string_of(&chars, 0, from - 1)
    } else {
        string_of(&chars, 0, chars.len())
    }
}

} // verus!
