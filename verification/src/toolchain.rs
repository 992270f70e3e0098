//! The tools of the target: where they are looked up and what was found.
//!
//! The compilers and the archiver are configured per target, under names that
//! end in the target's identifier.  The caller looks the names up (in the
//! process environment, or wherever it keeps its configuration) and reports
//! what it found.

use crate::target::TargetSpec;
use vstd::prelude::*;
use vstd::string::StringExecFns;

verus! {

/// Names under which the tools of one target are configured.
#[derive(Clone, Debug, PartialEq, Eq)]
pub struct Variables {
    /// Names the C compiler; this one must be set.
    pub c_compiler: String,
    /// Names the C++ compiler.
    pub cpp_compiler: String,
    /// Names the archiver.
    pub archiver: String,
}

/// Mathematical content of [`Variables`].
pub struct VariablesView {
    pub c_compiler: Seq<char>,
    pub cpp_compiler: Seq<char>,
    pub archiver: Seq<char>,
}

impl View for Variables {
    type V = VariablesView;

    open spec fn view(&self) -> VariablesView {
        VariablesView {
            c_compiler: self.c_compiler@,
            cpp_compiler: self.cpp_compiler@,
            archiver: self.archiver@,
        }
    }
}

/// The names for the target with identifier `id`: `CC_`, `CXX_` and `AR_`,
/// each followed by `id`.
pub open spec fn variables_of(id: Seq<char>) -> VariablesView {
    VariablesView { c_compiler: "CC_"@ + id, cpp_compiler: "CXX_"@ + id, archiver: "AR_"@ + id }
}

/// The installation and the tools that one run uses.
#[derive(Clone, Debug, PartialEq, Eq)]
pub struct ToolchainPaths {
    /// Root of the toolchain installation.
    pub sysroot: String,
    /// The C compiler of the target.
    pub c_compiler: String,
    /// The C++ compiler of the target, when one is configured.
    pub cpp_compiler: Option<String>,
    /// The archiver of the target, when one is configured.
    pub archiver: Option<String>,
}

/// Mathematical content of [`ToolchainPaths`].
pub struct ToolchainPathsView {
    pub sysroot: Seq<char>,
    pub c_compiler: Seq<char>,
    pub cpp_compiler: Option<Seq<char>>,
    pub archiver: Option<Seq<char>>,
}

impl View for ToolchainPaths {
    type V = ToolchainPathsView;

    open spec fn view(&self) -> ToolchainPathsView {
        ToolchainPathsView {
            sysroot: self.sysroot@,
            c_compiler: self.c_compiler@,
            cpp_compiler: self.cpp_compiler.deep_view(),
            archiver: self.archiver.deep_view(),
        }
    }
}

/// The names under which the tools of `target` are configured.
pub fn variables(target: &TargetSpec) -> (names: Variables)
    ensures
        names@ == variables_of(target@.normalized),
{
    let id = target.normalized.as_str();
    Variables {
        c_compiler: "CC_".to_owned().concat(id),
        cpp_compiler: "CXX_".to_owned().concat(id),
        archiver: "AR_".to_owned().concat(id),
    }
}

} // verus!
