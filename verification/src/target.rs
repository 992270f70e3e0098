//! Target triples: the identifier derived from a triple, and the platform
//! families that change how the runtime is compiled.

use crate::text::{chars_of, contains, occurs, string_of};
use vstd::prelude::*;

verus! {

/// The character that stands for `c` in an identifier: `-` and `.` become `_`,
/// every other character stays.
pub open spec fn normalized_char(c: char) -> char {
    if c == '-' || c == '.' {
        '_'
    } else {
        c
    }
}

/// The identifier form of a triple: each character replaced by
/// [`normalized_char`].
pub open spec fn normalized(triple: Seq<char>) -> Seq<char> {
    triple.map_values(|c: char| normalized_char(c))
}

/// Substring that marks the bare-metal enclave target.
pub open spec fn enclave_marker() -> Seq<char> {
    "x86_64-fortanix-unknown-sgx"@
}

/// Substring that marks a Windows-family target.
pub open spec fn windows_marker() -> Seq<char> {
    "windows"@
}

/// Substring that marks a target built on the musl C runtime.
pub open spec fn musl_marker() -> Seq<char> {
    "musl"@
}

/// The platform families a triple belongs to.  They are detected by
/// independent substring matches, so a triple may belong to several.
#[derive(Clone, Copy, Debug, PartialEq, Eq, Structural)]
pub struct Family {
    pub enclave: bool,
    pub windows: bool,
    pub musl: bool,
}

/// The families of `triple`.
pub open spec fn family_of(triple: Seq<char>) -> Family {
    Family {
        enclave: occurs(triple, enclave_marker()),
        windows: occurs(triple, windows_marker()),
        musl: occurs(triple, musl_marker()),
    }
}

/// The triples of one run and the identifier derived from the target triple.
#[derive(Clone, Debug, PartialEq, Eq)]
pub struct TargetSpec {
    /// Triple to compile for.
    pub triple: String,
    /// Triple of the machine that compiles.
    pub host: String,
    /// The target triple with every `-` and `.` replaced by `_`.
    pub normalized: String,
}

/// Mathematical content of [`TargetSpec`].
pub struct TargetSpecView {
    pub triple: Seq<char>,
    pub host: Seq<char>,
    pub normalized: Seq<char>,
}

impl TargetSpecView {
    /// The identifier is the one derived from the triple.
    pub open spec fn wf(self) -> bool {
        self.normalized == normalized(self.triple)
    }
}

impl View for TargetSpec {
    type V = TargetSpecView;

    open spec fn view(&self) -> TargetSpecView {
        TargetSpecView { triple: self.triple@, host: self.host@, normalized: self.normalized@ }
    }
}

/// The target description made of a target triple and a host triple.
pub open spec fn target_of(triple: Seq<char>, host: Seq<char>) -> TargetSpecView {
    TargetSpecView { triple, host, normalized: normalized(triple) }
}

impl TargetSpec {
    /// Describes the target `triple`, compiled on `host`.
    pub fn new(triple: String, host: String) -> (spec: TargetSpec)
        ensures
            spec@ == target_of(triple@, host@),
            spec@.wf(),
    {
        let normalized = normalize(triple.as_str());
        TargetSpec { triple, host, normalized }
    }

    /// The platform families of the target.
    pub fn family(&self) -> (family: Family)
        ensures
            family == family_of(self@.triple),
    {
        classify(self.triple.as_str())
    }
}

/// Replaces every `-` and `.` of `triple` with `_`.
pub fn normalize(triple: &str) -> (id: String)
    ensures
        id@ == normalized(triple@),
{
    let chars = chars_of(triple);
    let mut out: Vec<char> = Vec::new();
    let mut i: usize = 0;
    while i < chars.len()
        invariant
            i <= chars.len(),
            out@ == normalized(chars@.take(i as int)),
        decreases chars.len() - i,
    {
        let c = chars[i];
        if c == '-' || c == '.' {
            out.push('_');
        } else {
            out.push(c);
        }
        i += 1;
    }
    string_of(&out, 0, out.len())
}

/// Classifies `triple` into its platform families.
pub fn classify(triple: &str) -> (family: Family)
    ensures
        family == family_of(triple@),
{
    Family {
        enclave: contains(triple, "x86_64-fortanix-unknown-sgx"),
        windows: contains(triple, "windows"),
        musl: contains(triple, "musl"),
    }
}

/// Normalizing keeps the length and changes no character other than `-` and
/// `.`, each of which becomes `_`.
pub proof fn lemma_normalized_pointwise(triple: Seq<char>)
    ensures
        normalized(triple).len() == triple.len(),
        forall|i: int|
            0 <= i < triple.len() ==> #[trigger] normalized(triple)[i] == (if triple[i] == '-'
                || triple[i] == '.' {
                '_'
            } else {
                triple[i]
            }),
        forall|i: int|
            0 <= i < triple.len() ==> #[trigger] normalized(triple)[i] != '-' && normalized(
                triple,
            )[i] != '.',
{
}

/// Normalizing an identifier that is already normalized changes nothing.
pub proof fn lemma_normalized_idempotent(triple: Seq<char>)
    ensures
        normalized(normalized(triple)) == normalized(triple),
{
}

} // verus!
