//! Recovering the C++ objects from the output directory.
//!
//! The archive of all objects cannot be made by compiling the C and the C++
//! sources in one go.  The C++ unit is compiled first; the objects it left in
//! the output directory are then found again by their names and archived
//! together with the objects of the C unit.  An object belongs to a C++ source
//! when its file name begins with the stem of the source's file name.

use crate::paths::{extension, extension_of, file_name, file_name_of, stem, stem_of};
use crate::text::{equal, starts_with};
use vstd::prelude::*;

verus! {

/// What the caller found at one place of the output directory.
#[derive(Clone, Debug, PartialEq, Eq)]
pub struct OutputEntry {
    /// The path, with symbolic links resolved.
    pub path: String,
    /// Whether the path names a regular file.
    pub is_file: bool,
}

/// Mathematical content of [`OutputEntry`].
pub struct OutputEntryView {
    pub path: Seq<char>,
    pub is_file: bool,
}

impl View for OutputEntry {
    type V = OutputEntryView;

    open spec fn view(&self) -> OutputEntryView {
        OutputEntryView { path: self.path@, is_file: self.is_file }
    }
}

impl DeepView for OutputEntry {
    type V = OutputEntryView;

    open spec fn deep_view(&self) -> OutputEntryView {
        self@
    }
}

/// What one compilation left in the output directory: its objects, and the
/// name of the archive that was made of them.
#[derive(Clone, Debug, PartialEq, Eq)]
pub struct BuildArtifact {
    /// Name of the archive.
    pub archive: String,
    /// Paths of the objects, in the order in which they were found.
    pub objects: Vec<String>,
}

/// Mathematical content of [`BuildArtifact`].
pub struct BuildArtifactView {
    pub archive: Seq<char>,
    pub objects: Seq<Seq<char>>,
}

impl View for BuildArtifact {
    type V = BuildArtifactView;

    open spec fn view(&self) -> BuildArtifactView {
        BuildArtifactView { archive: self.archive@, objects: self.objects.deep_view() }
    }
}

/// The objects that were recovered are not as many as the C++ sources: the
/// toolchain names its objects in a way this driver does not know.
#[derive(Clone, Copy, Debug, PartialEq, Eq, Structural)]
pub struct CountMismatch {
    /// Number of C++ sources.
    pub expected: usize,
    /// Number of objects recovered.
    pub found: usize,
}

/// Extension of an object file.
pub open spec fn object_extension() -> Seq<char> {
    "o"@
}

/// The stems of the file names `names`.
pub open spec fn stems_of(names: Seq<Seq<char>>) -> Seq<Seq<char>> {
    names.map_values(|name: Seq<char>| stem_of(name))
}

/// `name` begins with one of `stems`.
pub open spec fn begins_with_any(name: Seq<char>, stems: Seq<Seq<char>>) -> bool {
    exists|i: int| 0 <= i < stems.len() && (#[trigger] stems[i]).is_prefix_of(name)
}

/// `entry` is an object of one of the sources with the stems `stems`: a
/// regular file with the extension of an object whose file name begins with
/// one of the stems.
pub open spec fn is_recovered(entry: OutputEntryView, stems: Seq<Seq<char>>) -> bool {
    let name = file_name_of(entry.path);
    &&& entry.is_file
    &&& extension_of(name) == Some(object_extension())
    &&& begins_with_any(name, stems)
}

/// The paths of the entries that are recovered, in the order of `entries`.
pub open spec fn recovered(entries: Seq<OutputEntryView>, stems: Seq<Seq<char>>) -> Seq<Seq<char>>
    decreases entries.len(),
{
    if entries.len() == 0 {
        Seq::empty()
    } else if is_recovered(entries.last(), stems) {
        recovered(entries.drop_last(), stems).push(entries.last().path)
    } else {
        recovered(entries.drop_last(), stems)
    }
}

/// What the recovery of the compilation archived as `archive` gives on
/// `entries`, for the sources named `names`: the recovered objects when there
/// is exactly one for each source, and the two counts otherwise.
pub open spec fn recovery(
    entries: Seq<OutputEntryView>,
    names: Seq<Seq<char>>,
    archive: Seq<char>,
) -> Result<BuildArtifactView, CountMismatch> {
    let objects = recovered(entries, stems_of(names));
    if objects.len() == names.len() {
        Ok(BuildArtifactView { archive, objects })
    } else {
        Err(CountMismatch { expected: names.len() as usize, found: objects.len() as usize })
    }
}

/// Mathematical content of the outcome of [`recover`].
pub open spec fn outcome_view(outcome: Result<BuildArtifact, CountMismatch>) -> Result<
    BuildArtifactView,
    CountMismatch,
> {
    match outcome {
        Ok(artifact) => Ok(artifact@),
        Err(mismatch) => Err(mismatch),
    }
}

/// The stems of the file names `names`.
pub fn stems_for(names: &Vec<String>) -> (stems: Vec<String>)
    ensures
        stems.deep_view() == stems_of(names.deep_view()),
{
    let mut stems: Vec<String> = Vec::new();
    let mut i: usize = 0;
    while i < names.len()
        invariant
            i <= names.len(),
            stems.deep_view() == stems_of(names.deep_view().take(i as int)),
        decreases names.len() - i,
    {
        let ghost before = stems.deep_view();
        stems.push(stem(names[i].as_str()));
        assert(stems_of(names.deep_view().take(i + 1)) == before.push(stem_of(names[i as int]@)));
        i += 1;
    }
    stems
}

/// Whether `name` begins with one of `stems`.
pub fn begins_with_one(name: &str, stems: &Vec<String>) -> (found: bool)
    ensures
        found == begins_with_any(name@, stems.deep_view()),
{
    let mut i: usize = 0;
    while i < stems.len()
        invariant
            i <= stems.len(),
            forall|k: int| 0 <= k < i ==> !(#[trigger] stems.deep_view()[k]).is_prefix_of(name@),
        decreases stems.len() - i,
    {
        if starts_with(name, stems[i].as_str()) {
            assert(stems.deep_view()[i as int].is_prefix_of(name@));
            return true;
        }
        i += 1;
    }
    false
}

/// Whether `entry` is an object of one of the sources with the stems `stems`.
pub fn is_object_of(entry: &OutputEntry, stems: &Vec<String>) -> (yes: bool)
    ensures
        yes == is_recovered(entry@, stems.deep_view()),
{
    if !entry.is_file {
        return false;
    }
    let name = file_name(entry.path.as_str());
    match extension(name.as_str()) {
        Some(ext) => equal(ext.as_str(), "o") && begins_with_one(name.as_str(), stems),
        None => false,
    }
}

/// Picks from `entries` the objects of the sources named `names`, which were
/// compiled into the archive `archive`, and checks that there is one for each
/// source.
pub fn recover(entries: &Vec<OutputEntry>, names: &Vec<String>, archive: &str) -> (outcome: Result<
    BuildArtifact,
    CountMismatch,
>)
    ensures
        outcome_view(outcome) == recovery(entries.deep_view(), names.deep_view(), archive@),
{
    let stems = stems_for(names);
    let mut objects: Vec<String> = Vec::new();
    let mut i: usize = 0;
    while i < entries.len()
        invariant
            i <= entries.len(),
            objects.len() <= i,
            objects.deep_view() == recovered(entries.deep_view().take(i as int), stems.deep_view()),
        decreases entries.len() - i,
    {
        assert(entries.deep_view().take(i + 1).drop_last() == entries.deep_view().take(i as int));
        if is_object_of(&entries[i], &stems) {
            objects.push(entries[i].path.clone());
        }
        i += 1;
    }
    assert(entries.deep_view().take(entries.len() as int) == entries.deep_view());
    if objects.len() == names.len() {
        Ok(BuildArtifact { archive: archive.to_owned(), objects })
    } else {
        Err(CountMismatch { expected: names.len(), found: objects.len() })
    }
}

} // verus!
