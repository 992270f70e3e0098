//! Compilation plans.
//!
//! One run compiles two units: the C and assembly sources of the runtime, and
//! its C++ sources.  Both share a baseline of settings; the target's families
//! add to it.  A plan says everything the compiler invocation needs and is
//! handed to the caller, which carries it out.

use crate::paths::{join, joined, source_root, source_root_of};
use crate::target::{family_of, Family, TargetSpec, TargetSpecView};
use crate::text::{copy_all, copy_optional};
use crate::toolchain::{ToolchainPaths, ToolchainPathsView};
use vstd::prelude::*;

verus! {

/// Optimization level of every unit: the highest tier.
pub const OPT_LEVEL: u32 = 3;

/// The language of a unit's sources.
#[derive(Clone, Copy, Debug, PartialEq, Eq, Structural)]
pub enum Language {
    /// C and assembly.
    C,
    /// C++.
    Cpp,
}

/// A preprocessor definition.
#[derive(Clone, Debug, PartialEq, Eq)]
pub struct Define {
    pub name: String,
    /// The value, when the definition gives one.
    pub value: Option<String>,
}

/// Mathematical content of [`Define`].
pub struct DefineView {
    pub name: Seq<char>,
    pub value: Option<Seq<char>>,
}

impl View for Define {
    type V = DefineView;

    open spec fn view(&self) -> DefineView {
        DefineView { name: self.name@, value: self.value.deep_view() }
    }
}

impl DeepView for Define {
    type V = DefineView;

    open spec fn deep_view(&self) -> DefineView {
        self@
    }
}

/// Everything one compiler invocation needs.
#[derive(Clone, Debug, PartialEq, Eq)]
pub struct CompilationUnit {
    /// Language of the sources.
    pub language: Language,
    /// Whether the compiler is driven as a C++ compiler.
    pub cpp_mode: bool,
    /// Whether linking of the C++ standard library is switched off.
    pub cpp_stdlib_disabled: bool,
    /// The compiler to run, when it is not left to the default.
    pub compiler: Option<String>,
    /// The archiver to run, when it is not left to the default.
    pub archiver: Option<String>,
    /// Triple to compile for.
    pub target: String,
    /// Triple of the machine that compiles.
    pub host: String,
    /// Directory that receives the objects and the archive.
    pub out_dir: String,
    pub opt_level: u32,
    /// Whether debug information is produced.
    pub debug: bool,
    /// Whether the compiler's warnings are shown.
    pub warnings: bool,
    /// Whether the build reports to cargo.
    pub cargo_metadata: bool,
    /// Whether static archiving is forced.
    pub force_static: bool,
    /// Flags passed in this order.
    pub flags: Vec<String>,
    /// Flags passed only where the compiler accepts them.
    pub optional_flags: Vec<String>,
    /// Definitions passed in this order.
    pub defines: Vec<Define>,
    /// Directories searched for headers.
    pub include_dirs: Vec<String>,
    /// Source files to compile, in this order.
    pub sources: Vec<String>,
    /// Objects that are archived as they are, without compiling.
    pub objects: Vec<String>,
}

/// Mathematical content of [`CompilationUnit`].
pub struct CompilationUnitView {
    pub language: Language,
    pub cpp_mode: bool,
    pub cpp_stdlib_disabled: bool,
    pub compiler: Option<Seq<char>>,
    pub archiver: Option<Seq<char>>,
    pub target: Seq<char>,
    pub host: Seq<char>,
    pub out_dir: Seq<char>,
    pub opt_level: u32,
    pub debug: bool,
    pub warnings: bool,
    pub cargo_metadata: bool,
    pub force_static: bool,
    pub flags: Seq<Seq<char>>,
    pub optional_flags: Seq<Seq<char>>,
    pub defines: Seq<DefineView>,
    pub include_dirs: Seq<Seq<char>>,
    pub sources: Seq<Seq<char>>,
    pub objects: Seq<Seq<char>>,
}

impl View for CompilationUnit {
    type V = CompilationUnitView;

    open spec fn view(&self) -> CompilationUnitView {
        CompilationUnitView {
            language: self.language,
            cpp_mode: self.cpp_mode,
            cpp_stdlib_disabled: self.cpp_stdlib_disabled,
            compiler: self.compiler.deep_view(),
            archiver: self.archiver.deep_view(),
            target: self.target@,
            host: self.host@,
            out_dir: self.out_dir@,
            opt_level: self.opt_level,
            debug: self.debug,
            warnings: self.warnings,
            cargo_metadata: self.cargo_metadata,
            force_static: self.force_static,
            flags: self.flags.deep_view(),
            optional_flags: self.optional_flags.deep_view(),
            defines: self.defines.deep_view(),
            include_dirs: self.include_dirs.deep_view(),
            sources: self.sources.deep_view(),
            objects: self.objects.deep_view(),
        }
    }
}

/// Name of the archive that holds the C++ objects alone.
pub open spec fn cpp_archive() -> Seq<char> {
    "unwind-cpp"@
}

/// Name of the archive that holds all objects.
pub open spec fn merged_archive() -> Seq<char> {
    "unwind"@
}

/// Flags of the C++ unit alone: no C++ standard headers, no exceptions, no
/// run-time type information.
pub open spec fn cpp_flags() -> Seq<Seq<char>> {
    seq!["-nostdinc++"@, "-fno-exceptions"@, "-fno-rtti"@]
}

/// Flags of both units: strict aliasing, unwind tables, hidden visibility.
pub open spec fn shared_flags() -> Seq<Seq<char>> {
    seq!["-fstrict-aliasing"@, "-funwind-tables"@, "-fvisibility=hidden"@]
}

/// Flags that the enclave target adds to both units: no stack protector,
/// freestanding, exceptions back on, fortification undefined.
pub open spec fn enclave_flags() -> Seq<Seq<char>> {
    seq!["-fno-stack-protector"@, "-ffreestanding"@, "-fexceptions"@, "-U_FORTIFY_SOURCE"@]
}

/// The flag that hides the global `new` and `delete`, passed to the C++
/// compiler where it accepts it.
pub open spec fn cpp_optional_flags() -> Seq<Seq<char>> {
    seq!["-fvisibility-global-new-delete-hidden"@]
}

/// The flags of a unit before a language standard is chosen.
pub open spec fn flags_of(language: Language, family: Family) -> Seq<Seq<char>> {
    (if language == Language::Cpp {
        cpp_flags()
    } else {
        Seq::empty()
    }) + shared_flags() + (if family.enclave {
        enclave_flags()
    } else {
        Seq::empty()
    })
}

/// The flag that selects the language standard for a GNU-like compiler: C99
/// for C, C++11 for C++.
pub open spec fn standard_flag(language: Language) -> Seq<char> {
    match language {
        Language::C => "-std=c99"@,
        Language::Cpp => "-std=c++11"@,
    }
}

/// A definition without a value.
pub open spec fn marker(name: Seq<char>) -> DefineView {
    DefineView { name, value: None }
}

/// A definition with a value.
pub open spec fn setting(name: Seq<char>, value: Seq<char>) -> DefineView {
    DefineView { name, value: Some(value) }
}

/// The definition of every target: the runtime's own visibility annotations
/// are switched off.
pub open spec fn shared_defines() -> Seq<DefineView> {
    seq![marker("_LIBUNWIND_DISABLE_VISIBILITY_ANNOTATIONS"@)]
}

/// Definitions that the enclave target adds.
pub open spec fn enclave_defines() -> Seq<DefineView> {
    seq![
        setting("_FORTIFY_SOURCE"@, "0"@),
        setting("RUST_SGX"@, "1"@),
        marker("__NO_STRING_INLINES"@),
        marker("__NO_MATH_INLINES"@),
        marker("_LIBUNWIND_IS_BAREMETAL"@),
        marker("__LIBUNWIND_IS_NATIVE_ONLY"@),
        marker("NDEBUG"@),
    ]
}

/// Definitions that a Windows target adds.
pub open spec fn windows_defines() -> Seq<DefineView> {
    seq![setting("_LIBUNWIND_HIDE_SYMBOLS"@, "1"@), setting("_LIBUNWIND_IS_NATIVE_ONLY"@, "1"@)]
}

/// The definitions of both units of a target with the families `family`.
pub open spec fn defines_of(family: Family) -> Seq<DefineView> {
    shared_defines() + (if family.enclave {
        enclave_defines()
    } else {
        Seq::empty()
    }) + (if family.windows {
        windows_defines()
    } else {
        Seq::empty()
    })
}

/// `defines` holds a definition named `name`.
pub open spec fn defines_name(defines: Seq<DefineView>, name: Seq<char>) -> bool {
    exists|i: int| 0 <= i < defines.len() && #[trigger] defines[i].name == name
}

/// The C and assembly sources of every target.
pub open spec fn c_base_names() -> Seq<Seq<char>> {
    seq![
        "Unwind-sjlj.c"@,
        "UnwindLevel1-gcc-ext.c"@,
        "UnwindLevel1.c"@,
        "UnwindRegistersRestore.S"@,
        "UnwindRegistersSave.S"@,
    ]
}

/// The C source that only the enclave target compiles.
pub open spec fn enclave_source_name() -> Seq<char> {
    "UnwindRustSgx.c"@
}

/// The C++ sources of every target.
pub open spec fn cpp_names() -> Seq<Seq<char>> {
    seq!["Unwind-EHABI.cpp"@, "Unwind-seh.cpp"@, "libunwind.cpp"@]
}

/// File names of the sources of a unit.
pub open spec fn source_names(language: Language, family: Family) -> Seq<Seq<char>> {
    match language {
        Language::C => if family.enclave {
            c_base_names().push(enclave_source_name())
        } else {
            c_base_names()
        },
        Language::Cpp => cpp_names(),
    }
}

/// Path of the source file `name` in the source tree `root`.
pub open spec fn source_path(root: Seq<char>, name: Seq<char>) -> Seq<char> {
    joined(joined(root, "src"@), name)
}

/// Paths of the source files `names` in the source tree `root`.
pub open spec fn source_paths(root: Seq<char>, names: Seq<Seq<char>>) -> Seq<Seq<char>> {
    names.map_values(|name: Seq<char>| source_path(root, name))
}

/// The unit for `language` as it is first planned: the shared baseline, what
/// the language adds, and what the families of the target add.  The C unit
/// runs the target's C compiler; the C++ unit runs the target's C++ compiler
/// where one is configured.
pub open spec fn planned(
    language: Language,
    target: TargetSpecView,
    tools: ToolchainPathsView,
    out_dir: Seq<char>,
) -> CompilationUnitView {
    let family = family_of(target.triple);
    let root = source_root_of(tools.sysroot);
    CompilationUnitView {
        language,
        cpp_mode: language == Language::Cpp,
        cpp_stdlib_disabled: language == Language::Cpp,
        compiler: if language == Language::C {
            Some(tools.c_compiler)
        } else {
            tools.cpp_compiler
        },
        archiver: tools.archiver,
        target: target.triple,
        host: target.host,
        out_dir,
        opt_level: OPT_LEVEL,
        debug: false,
        warnings: false,
        cargo_metadata: false,
        force_static: family.enclave,
        flags: flags_of(language, family),
        optional_flags: if language == Language::Cpp {
            cpp_optional_flags()
        } else {
            Seq::empty()
        },
        defines: defines_of(family),
        include_dirs: seq![joined(root, "include"@)],
        sources: source_paths(root, source_names(language, family)),
        objects: Seq::empty(),
    }
}

/// `unit` once it is known whether its compiler is GNU-like: such a compiler
/// gets the flag that selects the language standard, any other keeps its
/// default.
pub open spec fn with_standard(unit: CompilationUnitView, gnu_like: bool) -> CompilationUnitView {
    if gnu_like {
        CompilationUnitView { flags: unit.flags.push(standard_flag(unit.language)), ..unit }
    } else {
        unit
    }
}

/// `unit` once it is known whether its compiler is GNU-like, for a target
/// whose C++ sources may be compiled by the C compiler: a GNU-like compiler is
/// replaced by `c_compiler`, run as a C compiler.
pub open spec fn with_c_compiler(
    unit: CompilationUnitView,
    gnu_like: bool,
    c_compiler: Seq<char>,
) -> CompilationUnitView {
    if gnu_like {
        CompilationUnitView { cpp_mode: false, compiler: Some(c_compiler), ..unit }
    } else {
        unit
    }
}

/// Whether the C++ unit of a target with the families `family` may be
/// compiled by the C compiler: on the enclave target and on musl targets.
pub open spec fn may_reuse_c_compiler(family: Family) -> bool {
    family.enclave || family.musl
}

/// Appends a copy of `text` to `texts`.
fn push_text(texts: &mut Vec<String>, text: &str)
    ensures
        final(texts).deep_view() == old(texts).deep_view().push(text@),
{
    texts.push(text.to_owned());
}

/// Appends the definition of `name` to `defines`.
fn push_define(defines: &mut Vec<Define>, name: &str, value: Option<&str>)
    ensures
        final(defines).deep_view() == old(defines).deep_view().push(
            DefineView { name: name@, value: value.deep_view() },
        ),
{
    let value = match value {
        Some(v) => Some(v.to_owned()),
        None => None,
    };
    defines.push(Define { name: name.to_owned(), value });
}

/// The flags of a unit before a language standard is chosen.
pub fn flags_for(language: Language, family: Family) -> (flags: Vec<String>)
    ensures
        flags.deep_view() == flags_of(language, family),
{
    let mut flags: Vec<String> = Vec::new();
    if language == Language::Cpp {
        push_text(&mut flags, "-nostdinc++");
        push_text(&mut flags, "-fno-exceptions");
        push_text(&mut flags, "-fno-rtti");
    }
    push_text(&mut flags, "-fstrict-aliasing");
    push_text(&mut flags, "-funwind-tables");
    push_text(&mut flags, "-fvisibility=hidden");
    if family.enclave {
        push_text(&mut flags, "-fno-stack-protector");
        push_text(&mut flags, "-ffreestanding");
        push_text(&mut flags, "-fexceptions");
        push_text(&mut flags, "-U_FORTIFY_SOURCE");
    }
    flags
}

/// The definitions of both units of a target with the families `family`.
pub fn defines_for(family: Family) -> (defines: Vec<Define>)
    ensures
        defines.deep_view() == defines_of(family),
{
    let mut defines: Vec<Define> = Vec::new();
    push_define(&mut defines, "_LIBUNWIND_DISABLE_VISIBILITY_ANNOTATIONS", None);
    if family.enclave {
        push_define(&mut defines, "_FORTIFY_SOURCE", Some("0"));
        push_define(&mut defines, "RUST_SGX", Some("1"));
        push_define(&mut defines, "__NO_STRING_INLINES", None);
        push_define(&mut defines, "__NO_MATH_INLINES", None);
        push_define(&mut defines, "_LIBUNWIND_IS_BAREMETAL", None);
        push_define(&mut defines, "__LIBUNWIND_IS_NATIVE_ONLY", None);
        push_define(&mut defines, "NDEBUG", None);
    }
    if family.windows {
        push_define(&mut defines, "_LIBUNWIND_HIDE_SYMBOLS", Some("1"));
        push_define(&mut defines, "_LIBUNWIND_IS_NATIVE_ONLY", Some("1"));
    }
    defines
}

/// File names of the sources of a unit.
pub fn sources_for(language: Language, family: Family) -> (names: Vec<String>)
    ensures
        names.deep_view() == source_names(language, family),
{
    let mut names: Vec<String> = Vec::new();
    match language {
        Language::C => {
            push_text(&mut names, "Unwind-sjlj.c");
            push_text(&mut names, "UnwindLevel1-gcc-ext.c");
            push_text(&mut names, "UnwindLevel1.c");
            push_text(&mut names, "UnwindRegistersRestore.S");
            push_text(&mut names, "UnwindRegistersSave.S");
            if family.enclave {
                push_text(&mut names, "UnwindRustSgx.c");
            }
        },
        Language::Cpp => {
            push_text(&mut names, "Unwind-EHABI.cpp");
            push_text(&mut names, "Unwind-seh.cpp");
            push_text(&mut names, "libunwind.cpp");
        },
    }
    names
}

/// Paths of the source files `names` in the source tree `root`.
pub fn paths_for(root: &str, names: &Vec<String>) -> (paths: Vec<String>)
    ensures
        paths.deep_view() == source_paths(root@, names.deep_view()),
{
    let dir = join(root, "src");
    let mut paths: Vec<String> = Vec::new();
    let mut i: usize = 0;
    while i < names.len()
        invariant
            i <= names.len(),
            dir@ == joined(root@, "src"@),
            paths.deep_view() == source_paths(root@, names.deep_view().take(i as int)),
        decreases names.len() - i,
    {
        let ghost before = paths.deep_view();
        let path = join(dir.as_str(), names[i].as_str());
        paths.push(path);
        assert(source_paths(root@, names.deep_view().take(i + 1)) == before.push(
            source_path(root@, names[i as int]@),
        ));
        i += 1;
    }
    paths
}

/// A copy of `defines`.
pub fn copy_defines(defines: &Vec<Define>) -> (copy: Vec<Define>)
    ensures
        copy.deep_view() == defines.deep_view(),
{
    let mut copy: Vec<Define> = Vec::new();
    let mut i: usize = 0;
    while i < defines.len()
        invariant
            i <= defines.len(),
            copy.deep_view() == defines.deep_view().take(i as int),
        decreases defines.len() - i,
    {
        let ghost before = copy.deep_view();
        let define = Define {
            name: defines[i].name.clone(),
            value: copy_optional(&defines[i].value),
        };
        copy.push(define);
        assert(defines.deep_view().take(i + 1) == before.push(defines[i as int]@));
        i += 1;
    }
    copy
}

/// Plans the unit for `language`: compiled for `target` with the tools
/// `tools`, its objects and its archive written to `out_dir`.
pub fn plan(language: Language, target: &TargetSpec, tools: &ToolchainPaths, out_dir: &str) -> (unit:
    CompilationUnit)
    ensures
        unit@ == planned(language, target@, tools@, out_dir@),
{
    let family = target.family();
    let root = source_root(tools.sysroot.as_str());
    let names = sources_for(language, family);
    let mut include_dirs: Vec<String> = Vec::new();
    include_dirs.push(join(root.as_str(), "include"));
    assert(include_dirs.deep_view() =~= seq![joined(root@, "include"@)]);
    let mut optional_flags: Vec<String> = Vec::new();
    let cpp = language == Language::Cpp;
    if cpp {
        optional_flags.push("-fvisibility-global-new-delete-hidden".to_owned());
        assert(optional_flags.deep_view() =~= cpp_optional_flags());
    } else {
    }
    let objects: Vec<String> = Vec::new();
    assert(objects.deep_view() =~= Seq::<Seq<char>>::empty());
    CompilationUnit {
        language,
        cpp_mode: cpp,
        cpp_stdlib_disabled: cpp,
        compiler: if cpp {
            copy_optional(&tools.cpp_compiler)
        } else {
            Some(tools.c_compiler.clone())
        },
        archiver: copy_optional(&tools.archiver),
        target: target.triple.clone(),
        host: target.host.clone(),
        out_dir: out_dir.to_owned(),
        opt_level: OPT_LEVEL,
        debug: false,
        warnings: false,
        cargo_metadata: false,
        force_static: family.enclave,
        flags: flags_for(language, family),
        optional_flags,
        defines: defines_for(family),
        include_dirs,
        sources: paths_for(root.as_str(), &names),
        objects,
    }
}

impl CompilationUnit {
    /// A copy of this unit.
    pub fn duplicate(&self) -> (copy: CompilationUnit)
        ensures
            copy@ == self@,
    {
        CompilationUnit {
            language: self.language,
            cpp_mode: self.cpp_mode,
            cpp_stdlib_disabled: self.cpp_stdlib_disabled,
            compiler: copy_optional(&self.compiler),
            archiver: copy_optional(&self.archiver),
            target: self.target.clone(),
            host: self.host.clone(),
            out_dir: self.out_dir.clone(),
            opt_level: self.opt_level,
            debug: self.debug,
            warnings: self.warnings,
            cargo_metadata: self.cargo_metadata,
            force_static: self.force_static,
            flags: copy_all(&self.flags),
            optional_flags: copy_all(&self.optional_flags),
            defines: copy_defines(&self.defines),
            include_dirs: copy_all(&self.include_dirs),
            sources: copy_all(&self.sources),
            objects: copy_all(&self.objects),
        }
    }

    /// Chooses the language standard once it is known whether the unit's
    /// compiler is GNU-like.
    pub fn select_standard(self, gnu_like: bool) -> (unit: CompilationUnit)
        ensures
            unit@ == with_standard(self@, gnu_like),
    {
        let mut unit = self;
        if gnu_like {
            match unit.language {
                Language::C => push_text(&mut unit.flags, "-std=c99"),
                Language::Cpp => push_text(&mut unit.flags, "-std=c++11"),
            }
        }
        unit
    }

    /// Hands the unit to the C compiler `c_compiler` when its own compiler
    /// turned out to be GNU-like.
    pub fn reuse_c_compiler(self, gnu_like: bool, c_compiler: &str) -> (unit: CompilationUnit)
        ensures
            unit@ == with_c_compiler(self@, gnu_like, c_compiler@),
    {
        let mut unit = self;
        if gnu_like {
            unit.cpp_mode = false;
            unit.compiler = Some(c_compiler.to_owned());
        }
        unit
    }

    /// Replaces the sources of the unit.
    pub fn with_sources(self, sources: Vec<String>) -> (unit: CompilationUnit)
        ensures
            unit@ == (CompilationUnitView { sources: sources.deep_view(), ..self@ }),
    {
        let mut unit = self;
        unit.sources = sources;
        unit
    }

    /// Replaces the objects that the unit archives without compiling.
    pub fn with_objects(self, objects: Vec<String>) -> (unit: CompilationUnit)
        ensures
            unit@ == (CompilationUnitView { objects: objects.deep_view(), ..self@ }),
    {
        let mut unit = self;
        unit.objects = objects;
        unit
    }
}

/// Two source files of one tree have the same path only if they have the
/// same name.
pub proof fn lemma_source_path_injective(root: Seq<char>, a: Seq<char>, b: Seq<char>)
    requires
        source_path(root, a) == source_path(root, b),
    ensures
        a == b,
{
    let dir = joined(root, "src"@);
    let stem = if dir.len() == 0 || dir.last() == '/' {
        dir
    } else {
        dir + seq!['/']
    };
    assert((stem + a).skip(stem.len() as int) == a);
    assert((stem + b).skip(stem.len() as int) == b);
}

/// The C unit compiles the enclave's own source for the enclave target and
/// for no other: it has six sources there and five elsewhere.  The C++ unit
/// has three sources on every target.
pub proof fn lemma_enclave_source(
    target: TargetSpecView,
    tools: ToolchainPathsView,
    out_dir: Seq<char>,
)
    ensures
        planned(Language::C, target, tools, out_dir).sources.contains(
            source_path(source_root_of(tools.sysroot), enclave_source_name()),
        ) <==> family_of(target.triple).enclave,
        planned(Language::C, target, tools, out_dir).sources.len() == (if family_of(
            target.triple,
        ).enclave {
            6int
        } else {
            5int
        }),
        planned(Language::Cpp, target, tools, out_dir).sources.len() == 3,
{
    let family = family_of(target.triple);
    let root = source_root_of(tools.sysroot);
    let names = source_names(Language::C, family);
    let sources = planned(Language::C, target, tools, out_dir).sources;
    let extra = source_path(root, enclave_source_name());
    reveal_strlit("Unwind-sjlj.c");
    reveal_strlit("UnwindLevel1-gcc-ext.c");
    reveal_strlit("UnwindLevel1.c");
    reveal_strlit("UnwindRegistersRestore.S");
    reveal_strlit("UnwindRegistersSave.S");
    reveal_strlit("UnwindRustSgx.c");
    if family.enclave {
        assert(sources[5] == extra);
    } else {
        assert forall|i: int| 0 <= i < sources.len() implies sources[i] != extra by {
            if sources[i] == extra {
                lemma_source_path_injective(root, names[i], enclave_source_name());
            }
        }
    }
}

/// What the families of a target mean for its definitions.  The enclave
/// target defines `RUST_SGX` as `1` and defines `NDEBUG`; a Windows target
/// defines the markers that hide the symbols and that make the build native
/// only, both as `1`.  A target outside a family has no definition under any
/// name that the family adds.
pub proof fn lemma_family_defines(family: Family)
    ensures
        family.enclave ==> defines_of(family).contains(setting("RUST_SGX"@, "1"@))
            && defines_of(family).contains(marker("NDEBUG"@)),
        family.windows ==> defines_of(family).contains(
            setting("_LIBUNWIND_HIDE_SYMBOLS"@, "1"@),
        ) && defines_of(family).contains(setting("_LIBUNWIND_IS_NATIVE_ONLY"@, "1"@)),
        !family.enclave ==> forall|i: int|
            0 <= i < enclave_defines().len() ==> !defines_name(
                defines_of(family),
                #[trigger] enclave_defines()[i].name,
            ),
        !family.windows ==> forall|i: int|
            0 <= i < windows_defines().len() ==> !defines_name(
                defines_of(family),
                #[trigger] windows_defines()[i].name,
            ),
{
    let defines = defines_of(family);
    lemma_define_names_differ();
    if family.enclave {
        assert(defines[2] == setting("RUST_SGX"@, "1"@));
        assert(defines[7] == marker("NDEBUG"@));
        if family.windows {
            assert(defines[8] == setting("_LIBUNWIND_HIDE_SYMBOLS"@, "1"@));
            assert(defines[9] == setting("_LIBUNWIND_IS_NATIVE_ONLY"@, "1"@));
        }
    } else {
        if family.windows {
            assert(defines[1] == setting("_LIBUNWIND_HIDE_SYMBOLS"@, "1"@));
            assert(defines[2] == setting("_LIBUNWIND_IS_NATIVE_ONLY"@, "1"@));
        }
        assert forall|i: int| 0 <= i < enclave_defines().len() implies !defines_name(
            defines,
            #[trigger] enclave_defines()[i].name,
        ) by {
            assert forall|k: int| 0 <= k < defines.len() implies defines[k].name
                != enclave_defines()[i].name by {}
        }
    }
    if !family.windows {
        assert forall|i: int| 0 <= i < windows_defines().len() implies !defines_name(
            defines,
            #[trigger] windows_defines()[i].name,
        ) by {
            assert forall|k: int| 0 <= k < defines.len() implies defines[k].name
                != windows_defines()[i].name by {}
        }
    }
}

/// The definitions that one family adds have other names than those that
/// another family adds, and than the one that every target has.
pub proof fn lemma_define_names_differ()
    ensures
        forall|i: int, j: int|
            0 <= i < enclave_defines().len() && 0 <= j < windows_defines().len()
                ==> #[trigger] enclave_defines()[i].name != #[trigger] windows_defines()[j].name,
        forall|i: int|
            0 <= i < enclave_defines().len() ==> #[trigger] enclave_defines()[i].name
                != shared_defines()[0].name,
        forall|j: int|
            0 <= j < windows_defines().len() ==> #[trigger] windows_defines()[j].name
                != shared_defines()[0].name,
{
    reveal_strlit("_LIBUNWIND_DISABLE_VISIBILITY_ANNOTATIONS");
    reveal_strlit("_FORTIFY_SOURCE");
    reveal_strlit("RUST_SGX");
    reveal_strlit("__NO_STRING_INLINES");
    reveal_strlit("__NO_MATH_INLINES");
    reveal_strlit("_LIBUNWIND_IS_BAREMETAL");
    reveal_strlit("__LIBUNWIND_IS_NATIVE_ONLY");
    reveal_strlit("NDEBUG");
    reveal_strlit("_LIBUNWIND_HIDE_SYMBOLS");
    reveal_strlit("_LIBUNWIND_IS_NATIVE_ONLY");
    let enclave = enclave_defines();
    let windows = windows_defines();
    assert(shared_defines()[0].name.len() == 41);
    assert(enclave[0].name.len() == 15);
    assert(enclave[1].name.len() == 8);
    assert(enclave[2].name.len() == 19);
    assert(enclave[3].name.len() == 17);
    assert(enclave[4].name.len() == 23);
    assert(enclave[5].name.len() == 26);
    assert(enclave[6].name.len() == 6);
    assert(windows[0].name.len() == 23);
    assert(windows[1].name.len() == 25);
    assert(enclave[4].name[11] != windows[0].name[11]);
}

} // verus!
