//! The driver: one run, from the command line to the merged archive.
//!
//! The driver is a state machine.  [`start`] takes the command line and
//! [`step`] takes the outcome of the action that was asked for last; both
//! answer with the next state and the next action.  The caller performs the
//! actions.  A run that cannot go on is halted: the driver asks the caller to
//! abort and answers every later event the same way.

use crate::args::{parse, resolved, UsageError, UsageErrorView, USAGE_EXIT_STATUS};
use crate::plan::{
    cpp_archive, cpp_names, may_reuse_c_compiler, merged_archive, plan, planned, sources_for,
    with_c_compiler, with_standard, CompilationUnit, CompilationUnitView, Language,
};
use crate::probe::{host_from, reported_host, sysroot_from, trimmed_end};
use crate::recover::{recover, recovery, OutputEntry, OutputEntryView};
use crate::target::{family_of, target_of, Family, TargetSpec, TargetSpecView};
use crate::text::copy_all;
use crate::toolchain::{
    variables, variables_of, ToolchainPaths, ToolchainPathsView, Variables, VariablesView,
};
use vstd::prelude::*;

verus! {

/// Why a run was halted.
#[derive(Clone, Debug, PartialEq, Eq)]
pub enum Failure {
    /// The compiler driver's version report names no host.
    HostNotReported,
    /// No C compiler is configured for the target under the name `variable`.
    MissingCompiler { variable: String },
    /// The objects recovered from `out_dir` are not one for each C++ source.
    ObjectCount { out_dir: String, expected: usize, found: usize },
    /// The event does not answer the action that was asked for.
    UnexpectedEvent,
}

/// Mathematical content of [`Failure`].
pub enum FailureView {
    HostNotReported,
    MissingCompiler { variable: Seq<char> },
    ObjectCount { out_dir: Seq<char>, expected: usize, found: usize },
    UnexpectedEvent,
}

impl View for Failure {
    type V = FailureView;

    open spec fn view(&self) -> FailureView {
        match self {
            Failure::HostNotReported => FailureView::HostNotReported,
            Failure::MissingCompiler { variable } => FailureView::MissingCompiler {
                variable: variable@,
            },
            Failure::ObjectCount { out_dir, expected, found } => FailureView::ObjectCount {
                out_dir: out_dir@,
                expected: *expected,
                found: *found,
            },
            Failure::UnexpectedEvent => FailureView::UnexpectedEvent,
        }
    }
}

/// What the caller is asked to do next.
#[derive(Clone, Debug, PartialEq, Eq)]
pub enum Action {
    /// Print the complaint and the usage message, and exit with the status of
    /// a usage error.
    Usage { error: UsageError },
    /// Run `rustc -vV` and report its standard output.
    ProbeHost,
    /// Run `rustc --print sysroot` and report its standard output.
    ProbeSysroot,
    /// Look up the tools of the target under the names `names`.
    ReadToolchain { names: Variables },
    /// Create the directory `path` with its parents, unless it exists.
    CreateOutDir { path: String },
    /// Find out whether the compiler that `unit` resolves to is GNU-like.
    QueryFamily { unit: CompilationUnit },
    /// Resolve the source paths of both units to absolute paths free of
    /// symbolic links, in this order.
    ResolveSources { c: Vec<String>, cpp: Vec<String> },
    /// Compile `unit` and archive its objects under the name `archive`.
    Compile { unit: CompilationUnit, archive: String },
    /// List the directory `path`.
    ListOutDir { path: String },
    /// The run is complete.
    Finish,
    /// Give the run up.
    Abort { failure: Failure },
}

/// Mathematical content of [`Action`].
pub enum ActionView {
    Usage { error: UsageErrorView },
    ProbeHost,
    ProbeSysroot,
    ReadToolchain { names: VariablesView },
    CreateOutDir { path: Seq<char> },
    QueryFamily { unit: CompilationUnitView },
    ResolveSources { c: Seq<Seq<char>>, cpp: Seq<Seq<char>> },
    Compile { unit: CompilationUnitView, archive: Seq<char> },
    ListOutDir { path: Seq<char> },
    Finish,
    Abort { failure: FailureView },
}

impl View for Action {
    type V = ActionView;

    open spec fn view(&self) -> ActionView {
        match self {
            Action::Usage { error } => ActionView::Usage { error: error@ },
            Action::ProbeHost => ActionView::ProbeHost,
            Action::ProbeSysroot => ActionView::ProbeSysroot,
            Action::ReadToolchain { names } => ActionView::ReadToolchain { names: names@ },
            Action::CreateOutDir { path } => ActionView::CreateOutDir { path: path@ },
            Action::QueryFamily { unit } => ActionView::QueryFamily { unit: unit@ },
            Action::ResolveSources { c, cpp } => ActionView::ResolveSources {
                c: c.deep_view(),
                cpp: cpp.deep_view(),
            },
            Action::Compile { unit, archive } => ActionView::Compile {
                unit: unit@,
                archive: archive@,
            },
            Action::ListOutDir { path } => ActionView::ListOutDir { path: path@ },
            Action::Finish => ActionView::Finish,
            Action::Abort { failure } => ActionView::Abort { failure: failure@ },
        }
    }
}

/// The outcome of an action.
#[derive(Clone, Debug, PartialEq, Eq)]
pub enum Event {
    /// `rustc -vV` succeeded and printed `output`.
    HostReport { output: String },
    /// `rustc --print sysroot` succeeded and printed `output`.
    SysrootReport { output: String },
    /// What is configured under the three names of the target's tools.
    Toolchain { c_compiler: Option<String>, cpp_compiler: Option<String>, archiver: Option<String> },
    /// The output directory exists.
    OutDirReady,
    /// Whether the compiler asked about is GNU-like.
    Family { gnu_like: bool },
    /// The resolved paths of the sources of both units.
    Sources { c: Vec<String>, cpp: Vec<String> },
    /// The unit was compiled and archived.
    Compiled,
    /// What the output directory holds.
    Listing { entries: Vec<OutputEntry> },
}

/// Mathematical content of [`Event`].
pub enum EventView {
    HostReport { output: Seq<char> },
    SysrootReport { output: Seq<char> },
    Toolchain {
        c_compiler: Option<Seq<char>>,
        cpp_compiler: Option<Seq<char>>,
        archiver: Option<Seq<char>>,
    },
    OutDirReady,
    Family { gnu_like: bool },
    Sources { c: Seq<Seq<char>>, cpp: Seq<Seq<char>> },
    Compiled,
    Listing { entries: Seq<OutputEntryView> },
}

impl View for Event {
    type V = EventView;

    open spec fn view(&self) -> EventView {
        match self {
            Event::HostReport { output } => EventView::HostReport { output: output@ },
            Event::SysrootReport { output } => EventView::SysrootReport { output: output@ },
            Event::Toolchain { c_compiler, cpp_compiler, archiver } => EventView::Toolchain {
                c_compiler: c_compiler.deep_view(),
                cpp_compiler: cpp_compiler.deep_view(),
                archiver: archiver.deep_view(),
            },
            Event::OutDirReady => EventView::OutDirReady,
            Event::Family { gnu_like } => EventView::Family { gnu_like: *gnu_like },
            Event::Sources { c, cpp } => EventView::Sources {
                c: c.deep_view(),
                cpp: cpp.deep_view(),
            },
            Event::Compiled => EventView::Compiled,
            Event::Listing { entries } => EventView::Listing { entries: entries.deep_view() },
        }
    }
}

/// The two units of a run and what decides how they change.
#[derive(Clone, Debug, PartialEq, Eq)]
pub struct Plans {
    /// The unit of the C and assembly sources.
    pub c: CompilationUnit,
    /// The unit of the C++ sources.
    pub cpp: CompilationUnit,
    /// The families of the target.
    pub family: Family,
    /// The C compiler of the target.
    pub c_compiler: String,
}

/// Mathematical content of [`Plans`].
pub struct PlansView {
    pub c: CompilationUnitView,
    pub cpp: CompilationUnitView,
    pub family: Family,
    pub c_compiler: Seq<char>,
}

impl View for Plans {
    type V = PlansView;

    open spec fn view(&self) -> PlansView {
        PlansView {
            c: self.c@,
            cpp: self.cpp@,
            family: self.family,
            c_compiler: self.c_compiler@,
        }
    }
}

/// What a driver that is building waits for.
#[derive(Clone, Copy, Debug, PartialEq, Eq, Structural)]
pub enum BuildStep {
    /// Whether the compiler of the C unit is GNU-like.
    CFamily,
    /// Whether the compiler of the C++ unit is GNU-like.
    CppFamily,
    /// Whether the compiler of the C++ unit is GNU-like, asked again to
    /// decide whether the C compiler takes over.
    ReuseFamily,
    /// The resolved source paths.
    Sources,
    /// The end of the C++ unit's compilation.
    CppArchive,
    /// The listing of the output directory.
    Listing,
    /// The end of the C unit's compilation.
    MergedArchive,
}

/// The state of a run.
#[derive(Clone, Debug, PartialEq, Eq)]
pub enum Driver {
    /// Waits for the version report that names the host.
    AwaitHost { triple: String, out_dir: String, given_sysroot: Option<String> },
    /// Waits for the report that names the sysroot.
    AwaitSysroot { triple: String, out_dir: String, host: String },
    /// Waits for the tools of the target.
    AwaitToolchain { target: TargetSpec, out_dir: String, sysroot: String },
    /// Waits for the output directory.
    AwaitOutDir { target: TargetSpec, tools: ToolchainPaths, out_dir: String },
    /// Has planned both units and waits for what `step` says.
    Building { step: BuildStep, plans: Plans },
    /// Both archives are made.
    Finished,
    /// The run was given up.
    Halted,
}

/// Mathematical content of [`Driver`].
pub enum DriverView {
    AwaitHost { triple: Seq<char>, out_dir: Seq<char>, given_sysroot: Option<Seq<char>> },
    AwaitSysroot { triple: Seq<char>, out_dir: Seq<char>, host: Seq<char> },
    AwaitToolchain { target: TargetSpecView, out_dir: Seq<char>, sysroot: Seq<char> },
    AwaitOutDir { target: TargetSpecView, tools: ToolchainPathsView, out_dir: Seq<char> },
    Building { step: BuildStep, plans: PlansView },
    Finished,
    Halted,
}

impl View for Driver {
    type V = DriverView;

    open spec fn view(&self) -> DriverView {
        match self {
            Driver::AwaitHost { triple, out_dir, given_sysroot } => DriverView::AwaitHost {
                triple: triple@,
                out_dir: out_dir@,
                given_sysroot: given_sysroot.deep_view(),
            },
            Driver::AwaitSysroot { triple, out_dir, host } => DriverView::AwaitSysroot {
                triple: triple@,
                out_dir: out_dir@,
                host: host@,
            },
            Driver::AwaitToolchain { target, out_dir, sysroot } => DriverView::AwaitToolchain {
                target: target@,
                out_dir: out_dir@,
                sysroot: sysroot@,
            },
            Driver::AwaitOutDir { target, tools, out_dir } => DriverView::AwaitOutDir {
                target: target@,
                tools: tools@,
                out_dir: out_dir@,
            },
            Driver::Building { step, plans } => DriverView::Building { step: *step, plans: plans@ },
            Driver::Finished => DriverView::Finished,
            Driver::Halted => DriverView::Halted,
        }
    }
}

/// The exit status that `action` asks for: that of a usage error after a
/// usage error, success when the run is complete, none while the run goes on.
/// How the process ends when the run is given up is left to the caller.
pub open spec fn exit_status_of(action: ActionView) -> Option<i32> {
    match action {
        ActionView::Usage { .. } => Some(USAGE_EXIT_STATUS),
        ActionView::Finish => Some(0i32),
        _ => None,
    }
}

/// A run that is given up because of `failure`.
pub open spec fn halted(failure: FailureView) -> (DriverView, ActionView) {
    (DriverView::Halted, ActionView::Abort { failure })
}

/// The move of a driver that knows host and sysroot: it asks for the tools of
/// the target.
pub open spec fn toolchain_move(
    target: Seq<char>,
    out_dir: Seq<char>,
    host: Seq<char>,
    sysroot: Seq<char>,
) -> (DriverView, ActionView) {
    let target = target_of(target, host);
    (
        DriverView::AwaitToolchain { target, out_dir, sysroot },
        ActionView::ReadToolchain { names: variables_of(target.normalized) },
    )
}

/// The move of a driver that knows the host: it asks for the sysroot unless
/// that is known too.
pub open spec fn sysroot_move(
    target: Seq<char>,
    out_dir: Seq<char>,
    host: Seq<char>,
    sysroot: Option<Seq<char>>,
) -> (DriverView, ActionView) {
    match sysroot {
        Some(sysroot) => toolchain_move(target, out_dir, host, sysroot),
        None => (
            DriverView::AwaitSysroot { triple: target, out_dir, host },
            ActionView::ProbeSysroot,
        ),
    }
}

/// The move of a driver that has its arguments: it asks for the host unless
/// that is known.
pub open spec fn host_move(
    target: Seq<char>,
    out_dir: Seq<char>,
    host: Option<Seq<char>>,
    sysroot: Option<Seq<char>>,
) -> (DriverView, ActionView) {
    match host {
        Some(host) => sysroot_move(target, out_dir, host, sysroot),
        None => (
            DriverView::AwaitHost { triple: target, out_dir, given_sysroot: sysroot },
            ActionView::ProbeHost,
        ),
    }
}

/// The first move of a run with the command line `tokens`.  A command line
/// that does not resolve halts the run at once with a usage error.
pub open spec fn started(tokens: Seq<Seq<char>>) -> (DriverView, ActionView) {
    match resolved(tokens) {
        Ok(options) => host_move(options.target, options.out_dir, options.host, options.sysroot),
        Err(error) => (DriverView::Halted, ActionView::Usage { error }),
    }
}

/// The two units as they are first planned.
pub open spec fn first_plans(
    target: TargetSpecView,
    tools: ToolchainPathsView,
    out_dir: Seq<char>,
) -> PlansView {
    PlansView {
        c: planned(Language::C, target, tools, out_dir),
        cpp: planned(Language::Cpp, target, tools, out_dir),
        family: family_of(target.triple),
        c_compiler: tools.c_compiler,
    }
}

/// The move of a driver whose units are settled: it asks for their sources to
/// be resolved.
pub open spec fn resolve_move(plans: PlansView) -> (DriverView, ActionView) {
    (
        DriverView::Building { step: BuildStep::Sources, plans },
        ActionView::ResolveSources { c: plans.c.sources, cpp: plans.cpp.sources },
    )
}

/// The move of a driver that is building, on `event`.
pub open spec fn build_move(step: BuildStep, plans: PlansView, event: EventView) -> (
    DriverView,
    ActionView,
) {
    match (step, event) {
        (BuildStep::CFamily, EventView::Family { gnu_like }) => {
            let plans = PlansView { c: with_standard(plans.c, gnu_like), ..plans };
            (
                DriverView::Building { step: BuildStep::CppFamily, plans },
                ActionView::QueryFamily { unit: plans.cpp },
            )
        },
        (BuildStep::CppFamily, EventView::Family { gnu_like }) => {
            let plans = PlansView { cpp: with_standard(plans.cpp, gnu_like), ..plans };
            if may_reuse_c_compiler(plans.family) {
                (
                    DriverView::Building { step: BuildStep::ReuseFamily, plans },
                    ActionView::QueryFamily { unit: plans.cpp },
                )
            } else {
                resolve_move(plans)
            }
        },
        (BuildStep::ReuseFamily, EventView::Family { gnu_like }) => resolve_move(
            PlansView { cpp: with_c_compiler(plans.cpp, gnu_like, plans.c_compiler), ..plans },
        ),
        (BuildStep::Sources, EventView::Sources { c, cpp }) => {
            if c.len() == plans.c.sources.len() && cpp.len() == plans.cpp.sources.len() {
                let plans = PlansView {
                    c: CompilationUnitView { sources: c, ..plans.c },
                    cpp: CompilationUnitView { sources: cpp, ..plans.cpp },
                    ..plans
                };
                (
                    DriverView::Building { step: BuildStep::CppArchive, plans },
                    ActionView::Compile { unit: plans.cpp, archive: cpp_archive() },
                )
            } else {
                halted(FailureView::UnexpectedEvent)
            }
        },
        (BuildStep::CppArchive, EventView::Compiled) => (
            DriverView::Building { step: BuildStep::Listing, plans },
            ActionView::ListOutDir { path: plans.c.out_dir },
        ),
        (BuildStep::Listing, EventView::Listing { entries }) => match recovery(
            entries,
            cpp_names(),
            cpp_archive(),
        ) {
            Ok(artifact) => {
                let plans = PlansView {
                    c: CompilationUnitView { objects: artifact.objects, ..plans.c },
                    ..plans
                };
                (
                    DriverView::Building { step: BuildStep::MergedArchive, plans },
                    ActionView::Compile { unit: plans.c, archive: merged_archive() },
                )
            },
            Err(mismatch) => halted(
                FailureView::ObjectCount {
                    out_dir: plans.c.out_dir,
                    expected: mismatch.expected,
                    found: mismatch.found,
                },
            ),
        },
        (BuildStep::MergedArchive, EventView::Compiled) => (
            DriverView::Finished,
            ActionView::Finish,
        ),
        _ => halted(FailureView::UnexpectedEvent),
    }
}

/// The move of `driver` on `event`.  An event that does not answer the action
/// the driver asked for halts the run.
pub open spec fn stepped(driver: DriverView, event: EventView) -> (DriverView, ActionView) {
    match (driver, event) {
        (
            DriverView::AwaitHost { triple, out_dir, given_sysroot },
            EventView::HostReport { output },
        ) => match reported_host(output) {
            Some(host) => sysroot_move(triple, out_dir, host, given_sysroot),
            None => halted(FailureView::HostNotReported),
        },
        (
            DriverView::AwaitSysroot { triple, out_dir, host },
            EventView::SysrootReport { output },
        ) => toolchain_move(triple, out_dir, host, trimmed_end(output)),
        (
            DriverView::AwaitToolchain { target, out_dir, sysroot },
            EventView::Toolchain { c_compiler, cpp_compiler, archiver },
        ) => match c_compiler {
            Some(c_compiler) => (
                DriverView::AwaitOutDir {
                    target,
                    tools: ToolchainPathsView { sysroot, c_compiler, cpp_compiler, archiver },
                    out_dir,
                },
                ActionView::CreateOutDir { path: out_dir },
            ),
            None => halted(
                FailureView::MissingCompiler {
                    variable: variables_of(target.normalized).c_compiler,
                },
            ),
        },
        (DriverView::AwaitOutDir { target, tools, out_dir }, EventView::OutDirReady) => {
            let plans = first_plans(target, tools, out_dir);
            (
                DriverView::Building { step: BuildStep::CFamily, plans },
                ActionView::QueryFamily { unit: plans.c },
            )
        },
        (DriverView::Building { step, plans }, event) => build_move(step, plans, event),
        _ => halted(FailureView::UnexpectedEvent),
    }
}

/// The exit status that `action` asks for.
pub fn exit_status(action: &Action) -> (status: Option<i32>)
    ensures
        status == exit_status_of(action@),
{
    match action {
        Action::Usage { .. } => Some(USAGE_EXIT_STATUS),
        Action::Finish => Some(0),
        _ => None,
    }
}

/// Gives the run up: the driver is halted and the caller is asked to abort
/// with `failure`.
pub fn panic(failure: Failure) -> (next: (Driver, Action))
    ensures
        (next.0@, next.1@) == halted(failure@),
{
    (Driver::Halted, Action::Abort { failure })
}

/// Asks for the tools of the target once host and sysroot are known.
fn toolchain_step(target: String, out_dir: String, host: String, sysroot: String) -> (next: (
    Driver,
    Action,
))
    ensures
        (next.0@, next.1@) == toolchain_move(target@, out_dir@, host@, sysroot@),
{
    let target = TargetSpec::new(target, host);
    let names = variables(&target);
    (Driver::AwaitToolchain { target, out_dir, sysroot }, Action::ReadToolchain { names })
}

/// Asks for the sysroot unless it is known.
fn sysroot_step(target: String, out_dir: String, host: String, sysroot: Option<String>) -> (next: (
    Driver,
    Action,
))
    ensures
        (next.0@, next.1@) == sysroot_move(target@, out_dir@, host@, sysroot.deep_view()),
{
    match sysroot {
        Some(sysroot) => toolchain_step(target, out_dir, host, sysroot),
        None => (Driver::AwaitSysroot { triple: target, out_dir, host }, Action::ProbeSysroot),
    }
}

/// Asks for the host unless it is known.
fn host_step(
    target: String,
    out_dir: String,
    host: Option<String>,
    sysroot: Option<String>,
) -> (next: (Driver, Action))
    ensures
        (next.0@, next.1@) == host_move(target@, out_dir@, host.deep_view(), sysroot.deep_view()),
{
    match host {
        Some(host) => sysroot_step(target, out_dir, host, sysroot),
        None => (
            Driver::AwaitHost { triple: target, out_dir, given_sysroot: sysroot },
            Action::ProbeHost,
        ),
    }
}

/// Begins a run with the command line `tokens` (without the program's name).
pub fn start(tokens: &Vec<String>) -> (next: (Driver, Action))
    ensures
        (next.0@, next.1@) == started(tokens.deep_view()),
{
    match parse(tokens) {
        Ok(options) => host_step(options.target, options.out_dir, options.host, options.sysroot),
        Err(error) => (Driver::Halted, Action::Usage { error }),
    }
}

/// Asks for the sources of both units to be resolved.
fn resolve_step(plans: Plans) -> (next: (Driver, Action))
    ensures
        (next.0@, next.1@) == resolve_move(plans@),
{
    let c = copy_all(&plans.c.sources);
    let cpp = copy_all(&plans.cpp.sources);
    (Driver::Building { step: BuildStep::Sources, plans }, Action::ResolveSources { c, cpp })
}

/// The move of a driver that is building.
fn build_step(step: BuildStep, plans: Plans, event: Event) -> (next: (Driver, Action))
    ensures
        (next.0@, next.1@) == build_move(step, plans@, event@),
{
    match (step, event) {
        (BuildStep::CFamily, Event::Family { gnu_like }) => {
            let Plans { c, cpp, family, c_compiler } = plans;
            let unit = cpp.duplicate();
            let plans = Plans { c: c.select_standard(gnu_like), cpp, family, c_compiler };
            (Driver::Building { step: BuildStep::CppFamily, plans }, Action::QueryFamily { unit })
        },
        (BuildStep::CppFamily, Event::Family { gnu_like }) => {
            let Plans { c, cpp, family, c_compiler } = plans;
            let plans = Plans { c, cpp: cpp.select_standard(gnu_like), family, c_compiler };
            if family.enclave || family.musl {
                let unit = plans.cpp.duplicate();
                (
                    Driver::Building { step: BuildStep::ReuseFamily, plans },
                    Action::QueryFamily { unit },
                )
            } else {
                resolve_step(plans)
            }
        },
        (BuildStep::ReuseFamily, Event::Family { gnu_like }) => {
            let Plans { c, cpp, family, c_compiler } = plans;
            let cpp = cpp.reuse_c_compiler(gnu_like, c_compiler.as_str());
            resolve_step(Plans { c, cpp, family, c_compiler })
        },
        (BuildStep::Sources, Event::Sources { c: c_sources, cpp: cpp_sources }) => {
            if c_sources.len() == plans.c.sources.len() && cpp_sources.len()
                == plans.cpp.sources.len() {
                let Plans { c, cpp, family, c_compiler } = plans;
                let plans = Plans {
                    c: c.with_sources(c_sources),
                    cpp: cpp.with_sources(cpp_sources),
                    family,
                    c_compiler,
                };
                let unit = plans.cpp.duplicate();
                (
                    Driver::Building { step: BuildStep::CppArchive, plans },
                    Action::Compile { unit, archive: "unwind-cpp".to_owned() },
                )
            } else {
                panic(Failure::UnexpectedEvent)
            }
        },
        (BuildStep::CppArchive, Event::Compiled) => {
            let path = plans.c.out_dir.clone();
            (Driver::Building { step: BuildStep::Listing, plans }, Action::ListOutDir { path })
        },
        (BuildStep::Listing, Event::Listing { entries }) => {
            let names = sources_for(Language::Cpp, plans.family);
            match recover(&entries, &names, "unwind-cpp") {
                Ok(artifact) => {
                    let Plans { c, cpp, family, c_compiler } = plans;
                    let plans = Plans {
                        c: c.with_objects(artifact.objects),
                        cpp,
                        family,
                        c_compiler,
                    };
                    let unit = plans.c.duplicate();
                    (
                        Driver::Building { step: BuildStep::MergedArchive, plans },
                        Action::Compile { unit, archive: "unwind".to_owned() },
                    )
                },
                Err(mismatch) => panic(
                    Failure::ObjectCount {
                        out_dir: plans.c.out_dir.clone(),
                        expected: mismatch.expected,
                        found: mismatch.found,
                    },
                ),
            }
        },
        (BuildStep::MergedArchive, Event::Compiled) => (Driver::Finished, Action::Finish),
        _ => panic(Failure::UnexpectedEvent),
    }
}

/// Takes the outcome of the action that was asked for last and says what to
/// do next.
pub fn step(driver: Driver, event: Event) -> (next: (Driver, Action))
    ensures
        (next.0@, next.1@) == stepped(driver@, event@),
{
    match (driver, event) {
        (Driver::AwaitHost { triple, out_dir, given_sysroot }, Event::HostReport { output }) => {
            match host_from(output.as_str()) {
                Some(host) => sysroot_step(triple, out_dir, host, given_sysroot),
                None => panic(Failure::HostNotReported),
            }
        },
        (Driver::AwaitSysroot { triple, out_dir, host }, Event::SysrootReport { output }) => {
            toolchain_step(triple, out_dir, host, sysroot_from(output.as_str()))
        },
        (
            Driver::AwaitToolchain { target, out_dir, sysroot },
            Event::Toolchain { c_compiler, cpp_compiler, archiver },
        ) => {
            match c_compiler {
                Some(c_compiler) => {
                    let path = out_dir.clone();
                    let tools = ToolchainPaths { sysroot, c_compiler, cpp_compiler, archiver };
                    (Driver::AwaitOutDir { target, tools, out_dir }, Action::CreateOutDir { path })
                },
                None => panic(Failure::MissingCompiler { variable: variables(&target).c_compiler }),
            }
        },
        (Driver::AwaitOutDir { target, tools, out_dir }, Event::OutDirReady) => {
            let plans = Plans {
                c: plan(Language::C, &target, &tools, out_dir.as_str()),
                cpp: plan(Language::Cpp, &target, &tools, out_dir.as_str()),
                family: target.family(),
                c_compiler: tools.c_compiler,
            };
            let unit = plans.c.duplicate();
            (Driver::Building { step: BuildStep::CFamily, plans }, Action::QueryFamily { unit })
        },
        (Driver::Building { step, plans }, event) => build_step(step, plans, event),
        _ => panic(Failure::UnexpectedEvent),
    }
}

} // verus!
