use build_libunwind::args::UsageError;
use build_libunwind::driver::{
    exit_status, start, step, Action, BuildStep, Driver, Event, Failure,
};
use build_libunwind::plan::{CompilationUnit, Language};
use build_libunwind::recover::OutputEntry;
use build_libunwind::toolchain::Variables;

const ROOT: &str = "/sysroot/lib/rustlib/src/rust/src/llvm-project/libunwind";

fn tokens(list: &[&str]) -> Vec<String> {
    list.iter().map(|t| t.to_string()).collect()
}

fn resolved(paths: &[String]) -> Vec<String> {
    paths.iter().map(|path| format!("/real{}", path)).collect()
}

fn objects() -> Vec<OutputEntry> {
    ["/out/Unwind-EHABI.o", "/out/Unwind-seh.o", "/out/libunwind.o"]
        .iter()
        .map(|path| OutputEntry { path: path.to_string(), is_file: true })
        .collect()
}

fn toolchain(c_compiler: Option<&str>) -> Event {
    Event::Toolchain { c_compiler: c_compiler.map(|c| c.to_string()), cpp_compiler: None, archiver: None }
}

/// Runs the driver for `triple` up to the point where both units are planned.
fn planned(triple: &str) -> (Driver, Action) {
    let target = format!("--target={}", triple);
    let (driver, action) = start(&tokens(&[&target, "--out=/out", "--host=h", "--sysroot=/sysroot"]));
    assert!(matches!(action, Action::ReadToolchain { .. }));
    let (driver, action) = step(driver, toolchain(Some("gcc")));
    assert_eq!(action, Action::CreateOutDir { path: "/out".to_string() });
    step(driver, Event::OutDirReady)
}

fn query_unit(action: Action) -> CompilationUnit {
    match action {
        Action::QueryFamily { unit } => unit,
        other => panic!("unexpected action: {:?}", other),
    }
}

fn compile_unit(action: Action, name: &str) -> CompilationUnit {
    match action {
        Action::Compile { unit, archive } => {
            assert_eq!(archive, name);
            unit
        }
        other => panic!("unexpected action: {:?}", other),
    }
}

fn answer_sources(driver: Driver, action: Action) -> (Driver, Action) {
    match action {
        Action::ResolveSources { c, cpp } => step(driver, Event::Sources { c: resolved(&c), cpp: resolved(&cpp) }),
        other => panic!("unexpected action: {:?}", other),
    }
}

#[test]
fn scenario_linux_gnu_run() {
    let (driver, action) = start(&tokens(&["--target=x86_64-unknown-linux-gnu", "--out=/out"]));
    assert_eq!(action, Action::ProbeHost);
    let (driver, action) = step(
        driver,
        Event::HostReport { output: "rustc 1.80.0\nbinary: rustc\nhost: x86_64-unknown-linux-gnu\n".to_string() },
    );
    assert_eq!(action, Action::ProbeSysroot);
    let (driver, action) = step(driver, Event::SysrootReport { output: "/sysroot\n".to_string() });
    assert_eq!(
        action,
        Action::ReadToolchain {
            names: Variables {
                c_compiler: "CC_x86_64_unknown_linux_gnu".to_string(),
                cpp_compiler: "CXX_x86_64_unknown_linux_gnu".to_string(),
                archiver: "AR_x86_64_unknown_linux_gnu".to_string(),
            }
        }
    );
    let (driver, action) = step(driver, toolchain(Some("/usr/bin/gcc")));
    assert_eq!(action, Action::CreateOutDir { path: "/out".to_string() });
    let (driver, action) = step(driver, Event::OutDirReady);
    let unit = query_unit(action);
    assert_eq!(unit.language, Language::C);
    assert_eq!(unit.compiler.as_deref(), Some("/usr/bin/gcc"));
    assert_eq!(unit.archiver, None);
    let (driver, action) = step(driver, Event::Family { gnu_like: true });
    let unit = query_unit(action);
    assert_eq!(unit.language, Language::Cpp);
    assert_eq!(unit.compiler, None);
    let (driver, action) = step(driver, Event::Family { gnu_like: true });
    assert_eq!(
        action,
        Action::ResolveSources {
            c: vec![
                format!("{}/src/Unwind-sjlj.c", ROOT),
                format!("{}/src/UnwindLevel1-gcc-ext.c", ROOT),
                format!("{}/src/UnwindLevel1.c", ROOT),
                format!("{}/src/UnwindRegistersRestore.S", ROOT),
                format!("{}/src/UnwindRegistersSave.S", ROOT),
            ],
            cpp: vec![
                format!("{}/src/Unwind-EHABI.cpp", ROOT),
                format!("{}/src/Unwind-seh.cpp", ROOT),
                format!("{}/src/libunwind.cpp", ROOT),
            ],
        }
    );
    let (driver, action) = answer_sources(driver, action);
    let cpp = compile_unit(action, "unwind-cpp");
    assert_eq!(cpp.language, Language::Cpp);
    assert!(cpp.cpp_mode);
    assert_eq!(cpp.sources.len(), 3);
    assert_eq!(cpp.sources[2], format!("/real{}/src/libunwind.cpp", ROOT));
    assert!(cpp.objects.is_empty());
    assert_eq!(cpp.flags.last().map(|f| f.as_str()), Some("-std=c++11"));
    assert_eq!(cpp.target, "x86_64-unknown-linux-gnu");
    assert_eq!(cpp.host, "x86_64-unknown-linux-gnu");
    assert_eq!(cpp.out_dir, "/out");
    let (driver, action) = step(driver, Event::Compiled);
    assert_eq!(action, Action::ListOutDir { path: "/out".to_string() });
    let (driver, action) = step(driver, Event::Listing { entries: objects() });
    let merged = compile_unit(action, "unwind");
    assert_eq!(merged.language, Language::C);
    assert!(!merged.cpp_mode);
    assert_eq!(merged.sources.len(), 5);
    assert_eq!(merged.sources[0], format!("/real{}/src/Unwind-sjlj.c", ROOT));
    assert_eq!(merged.objects, vec!["/out/Unwind-EHABI.o", "/out/Unwind-seh.o", "/out/libunwind.o"]);
    assert_eq!(merged.flags.last().map(|f| f.as_str()), Some("-std=c99"));
    assert_eq!(merged.compiler.as_deref(), Some("/usr/bin/gcc"));
    let (driver, action) = step(driver, Event::Compiled);
    assert_eq!(action, Action::Finish);
    assert_eq!(driver, Driver::Finished);
}

#[test]
fn given_host_and_sysroot_are_not_probed() {
    let (driver, action) = start(&tokens(&["--target=t-x", "--out=o", "--host=h", "--sysroot=/s \n"]));
    assert!(matches!(action, Action::ReadToolchain { .. }));
    match driver {
        Driver::AwaitToolchain { target, out_dir, sysroot } => {
            assert_eq!(target.triple, "t-x");
            assert_eq!(target.host, "h");
            assert_eq!(target.normalized, "t_x");
            assert_eq!(out_dir, "o");
            assert_eq!(sysroot, "/s \n");
        }
        other => panic!("unexpected state: {:?}", other),
    }
}

#[test]
fn given_host_skips_to_the_sysroot_probe() {
    let (driver, action) = start(&tokens(&["--target=t", "--out=o", "--host=h"]));
    assert_eq!(action, Action::ProbeSysroot);
    assert_eq!(
        driver,
        Driver::AwaitSysroot { triple: "t".to_string(), out_dir: "o".to_string(), host: "h".to_string() }
    );
}

#[test]
fn probed_host_keeps_the_given_sysroot() {
    let (driver, action) = start(&tokens(&["--sysroot=/s", "--target=t", "--out=o"]));
    assert_eq!(action, Action::ProbeHost);
    let (driver, action) = step(driver, Event::HostReport { output: "host: probed".to_string() });
    assert!(matches!(action, Action::ReadToolchain { .. }));
    match driver {
        Driver::AwaitToolchain { target, sysroot, .. } => {
            assert_eq!(target.host, "probed");
            assert_eq!(sysroot, "/s");
        }
        other => panic!("unexpected state: {:?}", other),
    }
}

#[test]
fn unknown_flag_is_a_usage_error() {
    let (driver, action) = start(&tokens(&["--target=t", "--out=o", "--bogus=1"]));
    assert_eq!(driver, Driver::Halted);
    assert_eq!(
        action,
        Action::Usage { error: UsageError::UnknownArgument { argument: "--bogus=1".to_string() } }
    );
}

#[test]
fn unknown_flag_exits_with_one() {
    let (_, action) = start(&tokens(&["--bogus=1"]));
    assert_eq!(exit_status(&action), Some(1));
    let (_, action) = start(&tokens(&["--out=o"]));
    assert_eq!(exit_status(&action), Some(1));
}

#[test]
fn exit_status_is_set_at_the_end_only() {
    assert_eq!(exit_status(&Action::Finish), Some(0));
    assert_eq!(exit_status(&Action::ProbeHost), None);
    assert_eq!(exit_status(&Action::CreateOutDir { path: "o".to_string() }), None);
    assert_eq!(exit_status(&Action::Abort { failure: Failure::HostNotReported }), None);
}

#[test]
fn unknown_flag_never_leads_to_a_compilation() {
    let (mut driver, _) = start(&tokens(&["--bogus=1", "--target=t", "--out=o"]));
    let events = vec![
        Event::HostReport { output: "host: h".to_string() },
        Event::SysrootReport { output: "/s".to_string() },
        toolchain(Some("gcc")),
        Event::OutDirReady,
        Event::Family { gnu_like: true },
        Event::Sources { c: vec![], cpp: vec![] },
        Event::Compiled,
        Event::Listing { entries: objects() },
    ];
    for event in events {
        let (next, action) = step(driver, event);
        assert_eq!(action, Action::Abort { failure: Failure::UnexpectedEvent });
        assert_eq!(next, Driver::Halted);
        driver = next;
    }
}

#[test]
fn missing_required_keys_are_usage_errors() {
    assert_eq!(
        start(&tokens(&["--out=o"])),
        (Driver::Halted, Action::Usage { error: UsageError::MissingTarget })
    );
    assert_eq!(
        start(&tokens(&["--target=t"])),
        (Driver::Halted, Action::Usage { error: UsageError::MissingOut })
    );
}

#[test]
fn report_without_host_halts() {
    let (driver, _) = start(&tokens(&["--target=t", "--out=o"]));
    assert_eq!(
        step(driver, Event::HostReport { output: "rustc 1.80.0\nrelease: 1.80.0\n".to_string() }),
        (Driver::Halted, Action::Abort { failure: Failure::HostNotReported })
    );
}

#[test]
fn missing_c_compiler_halts() {
    let (driver, _) = start(&tokens(&["--target=x86_64-unknown-linux-gnu", "--out=o", "--host=h", "--sysroot=s"]));
    let event = Event::Toolchain {
        c_compiler: None,
        cpp_compiler: Some("g++".to_string()),
        archiver: Some("ar".to_string()),
    };
    assert_eq!(
        step(driver, event),
        (
            Driver::Halted,
            Action::Abort {
                failure: Failure::MissingCompiler { variable: "CC_x86_64_unknown_linux_gnu".to_string() }
            }
        )
    );
}

#[test]
fn out_dir_is_made_before_anything_is_compiled() {
    let mut actions = Vec::new();
    let (driver, action) = start(&tokens(&["--target=x86_64-unknown-linux-gnu", "--out=/out", "--host=h", "--sysroot=/sysroot"]));
    actions.push(action);
    let (driver, action) = step(driver, toolchain(Some("gcc")));
    actions.push(action);
    let (driver, action) = step(driver, Event::OutDirReady);
    actions.push(action);
    let (driver, action) = step(driver, Event::Family { gnu_like: false });
    actions.push(action);
    let (driver, action) = step(driver, Event::Family { gnu_like: false });
    actions.push(action.clone());
    let (driver, action) = answer_sources(driver, action);
    actions.push(action);
    let (driver, action) = step(driver, Event::Compiled);
    actions.push(action);
    let (driver, action) = step(driver, Event::Listing { entries: objects() });
    actions.push(action);
    let (_, action) = step(driver, Event::Compiled);
    actions.push(action);
    let made = actions.iter().position(|a| matches!(a, Action::CreateOutDir { .. })).unwrap();
    let compiled = actions.iter().position(|a| matches!(a, Action::Compile { .. })).unwrap();
    let queried = actions.iter().position(|a| matches!(a, Action::QueryFamily { .. })).unwrap();
    assert!(made < queried && queried < compiled);
    assert_eq!(actions.iter().filter(|a| matches!(a, Action::Compile { .. })).count(), 2);
    assert_eq!(actions.last(), Some(&Action::Finish));
}

#[test]
fn compiling_before_the_out_dir_is_ready_halts() {
    let (driver, _) = start(&tokens(&["--target=t", "--out=o", "--host=h", "--sysroot=s"]));
    let (driver, action) = step(driver, toolchain(Some("gcc")));
    assert_eq!(action, Action::CreateOutDir { path: "o".to_string() });
    assert_eq!(
        step(driver, Event::Compiled),
        (Driver::Halted, Action::Abort { failure: Failure::UnexpectedEvent })
    );
}

#[test]
fn other_compilers_keep_their_default_standard() {
    let (driver, _) = planned("x86_64-unknown-linux-gnu");
    let (driver, _) = step(driver, Event::Family { gnu_like: false });
    let (driver, action) = step(driver, Event::Family { gnu_like: false });
    let (driver, action) = answer_sources(driver, action);
    let cpp = compile_unit(action, "unwind-cpp");
    assert!(!cpp.flags.iter().any(|f| f.starts_with("-std")));
    let (driver, _) = step(driver, Event::Compiled);
    let (_, action) = step(driver, Event::Listing { entries: objects() });
    let merged = compile_unit(action, "unwind");
    assert!(!merged.flags.iter().any(|f| f.starts_with("-std")));
}

#[test]
fn scenario_enclave_run() {
    let (driver, action) = planned("x86_64-fortanix-unknown-sgx");
    let c = query_unit(action);
    assert_eq!(c.sources.len(), 6);
    assert!(c.force_static);
    assert!(c.defines.iter().any(|d| d.name == "RUST_SGX" && d.value.as_deref() == Some("1")));
    assert!(c.defines.iter().any(|d| d.name == "NDEBUG" && d.value.is_none()));
    let (driver, action) = step(driver, Event::Family { gnu_like: true });
    assert_eq!(query_unit(action).language, Language::Cpp);
    let (driver, action) = step(driver, Event::Family { gnu_like: true });
    let asked_again = query_unit(action);
    assert_eq!(asked_again.flags.last().map(|f| f.as_str()), Some("-std=c++11"));
    assert!(matches!(driver, Driver::Building { step: BuildStep::ReuseFamily, .. }));
    let (driver, action) = step(driver, Event::Family { gnu_like: true });
    let (_, action) = answer_sources(driver, action);
    let cpp = compile_unit(action, "unwind-cpp");
    assert!(!cpp.cpp_mode);
    assert_eq!(cpp.compiler.as_deref(), Some("gcc"));
    assert_eq!(cpp.language, Language::Cpp);
    assert_eq!(cpp.sources.len(), 3);
}

#[test]
fn musl_run_with_another_cpp_compiler_keeps_it() {
    let (driver, _) = planned("x86_64-unknown-linux-musl");
    let (driver, _) = step(driver, Event::Family { gnu_like: true });
    let (driver, action) = step(driver, Event::Family { gnu_like: true });
    assert!(matches!(action, Action::QueryFamily { .. }));
    let (driver, action) = step(driver, Event::Family { gnu_like: false });
    let (_, action) = answer_sources(driver, action);
    let cpp = compile_unit(action, "unwind-cpp");
    assert!(cpp.cpp_mode);
    assert_eq!(cpp.compiler, None);
}

#[test]
fn windows_run_does_not_ask_about_reuse() {
    let (driver, action) = planned("x86_64-pc-windows-msvc");
    let c = query_unit(action);
    assert!(c.defines.iter().any(|d| d.name == "_LIBUNWIND_HIDE_SYMBOLS" && d.value.as_deref() == Some("1")));
    assert!(c.defines.iter().any(|d| d.name == "_LIBUNWIND_IS_NATIVE_ONLY" && d.value.as_deref() == Some("1")));
    assert!(!c.defines.iter().any(|d| d.name == "RUST_SGX" || d.name == "NDEBUG"));
    let (driver, _) = step(driver, Event::Family { gnu_like: false });
    let (_, action) = step(driver, Event::Family { gnu_like: false });
    assert!(matches!(action, Action::ResolveSources { .. }));
}

#[test]
fn differently_named_objects_halt_the_run() {
    let (driver, _) = planned("x86_64-unknown-linux-gnu");
    let (driver, _) = step(driver, Event::Family { gnu_like: true });
    let (driver, action) = step(driver, Event::Family { gnu_like: true });
    let (driver, _) = answer_sources(driver, action);
    let (driver, _) = step(driver, Event::Compiled);
    let entries = vec![
        OutputEntry { path: "/out/0a1b-Unwind-EHABI.o".to_string(), is_file: true },
        OutputEntry { path: "/out/0a1b-Unwind-seh.o".to_string(), is_file: true },
        OutputEntry { path: "/out/libunwind.o".to_string(), is_file: true },
    ];
    let (driver, action) = step(driver, Event::Listing { entries });
    assert_eq!(
        action,
        Action::Abort {
            failure: Failure::ObjectCount { out_dir: "/out".to_string(), expected: 3, found: 1 }
        }
    );
    assert_eq!(driver, Driver::Halted);
    assert_eq!(
        step(driver, Event::Compiled),
        (Driver::Halted, Action::Abort { failure: Failure::UnexpectedEvent })
    );
}

#[test]
fn sources_of_another_count_halt_the_run() {
    let (driver, _) = planned("x86_64-unknown-linux-gnu");
    let (driver, _) = step(driver, Event::Family { gnu_like: true });
    let (driver, _) = step(driver, Event::Family { gnu_like: true });
    let event = Event::Sources { c: vec!["/a.c".to_string()], cpp: vec![] };
    assert_eq!(step(driver, event), (Driver::Halted, Action::Abort { failure: Failure::UnexpectedEvent }));
}

#[test]
fn finished_driver_takes_no_event() {
    assert_eq!(
        step(Driver::Finished, Event::Compiled),
        (Driver::Halted, Action::Abort { failure: Failure::UnexpectedEvent })
    );
}

#[test]
fn panic_halts_with_the_failure() {
    assert_eq!(
        build_libunwind::driver::panic(Failure::HostNotReported),
        (Driver::Halted, Action::Abort { failure: Failure::HostNotReported })
    );
    let failure = Failure::ObjectCount { out_dir: "/out".to_string(), expected: 3, found: 0 };
    assert_eq!(
        build_libunwind::driver::panic(failure.clone()),
        (Driver::Halted, Action::Abort { failure })
    );
}
