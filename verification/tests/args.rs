use build_libunwind::args::{complaint, parse, usage, Options, UsageError, USAGE_EXIT_STATUS};

fn tokens(list: &[&str]) -> Vec<String> {
    list.iter().map(|t| t.to_string()).collect()
}

#[test]
fn parse_takes_required_keys() {
    let options = parse(&tokens(&["--target=x86_64-unknown-linux-gnu", "--out=/tmp/out"])).unwrap();
    assert_eq!(
        options,
        Options {
            target: "x86_64-unknown-linux-gnu".to_string(),
            out_dir: "/tmp/out".to_string(),
            host: None,
            sysroot: None,
        }
    );
}

#[test]
fn parse_takes_all_keys_in_any_order() {
    let options = parse(&tokens(&[
        "--sysroot=/opt/rust",
        "--out=out",
        "--host=aarch64-apple-darwin",
        "--target=x86_64-pc-windows-msvc",
    ]))
    .unwrap();
    assert_eq!(options.target, "x86_64-pc-windows-msvc");
    assert_eq!(options.out_dir, "out");
    assert_eq!(options.host.as_deref(), Some("aarch64-apple-darwin"));
    assert_eq!(options.sysroot.as_deref(), Some("/opt/rust"));
}

#[test]
fn parse_keeps_the_last_value_of_a_key() {
    let options = parse(&tokens(&["--target=a", "--out=o1", "--target=b", "--out=o2"])).unwrap();
    assert_eq!(options.target, "b");
    assert_eq!(options.out_dir, "o2");
}

#[test]
fn parse_keeps_what_follows_the_first_equals_sign() {
    let options = parse(&tokens(&["--target=a=b", "--out=--host=x"])).unwrap();
    assert_eq!(options.target, "a=b");
    assert_eq!(options.out_dir, "--host=x");
    assert_eq!(options.host, None);
}

#[test]
fn parse_accepts_empty_values() {
    let options = parse(&tokens(&["--target=", "--out=", "--host=", "--sysroot="])).unwrap();
    assert_eq!(options.target, "");
    assert_eq!(options.out_dir, "");
    assert_eq!(options.host.as_deref(), Some(""));
    assert_eq!(options.sysroot.as_deref(), Some(""));
}

#[test]
fn parse_rejects_unknown_flag() {
    assert_eq!(
        parse(&tokens(&["--target=t", "--bogus=1", "--out=o"])),
        Err(UsageError::UnknownArgument { argument: "--bogus=1".to_string() })
    );
}

#[test]
fn parse_reports_the_first_unknown_token() {
    assert_eq!(
        parse(&tokens(&["--target=t", "first", "--out=o", "second"])),
        Err(UsageError::UnknownArgument { argument: "first".to_string() })
    );
}

#[test]
fn parse_rejects_a_key_without_equals_sign() {
    assert_eq!(
        parse(&tokens(&["--target", "t", "--out=o"])),
        Err(UsageError::UnknownArgument { argument: "--target".to_string() })
    );
}

#[test]
fn parse_rejects_a_key_with_one_dash() {
    assert_eq!(
        parse(&tokens(&["-target=t"])),
        Err(UsageError::UnknownArgument { argument: "-target=t".to_string() })
    );
}

#[test]
fn parse_reports_unknown_before_missing() {
    assert_eq!(
        parse(&tokens(&["--bogus=1"])),
        Err(UsageError::UnknownArgument { argument: "--bogus=1".to_string() })
    );
}

#[test]
fn parse_requires_target() {
    assert_eq!(parse(&tokens(&["--out=o", "--host=h"])), Err(UsageError::MissingTarget));
}

#[test]
fn parse_requires_out() {
    assert_eq!(parse(&tokens(&["--target=t", "--sysroot=s"])), Err(UsageError::MissingOut));
}

#[test]
fn parse_of_nothing_misses_the_target_first() {
    assert_eq!(parse(&tokens(&[])), Err(UsageError::MissingTarget));
}

#[test]
fn usage_names_the_flags() {
    assert_eq!(
        usage(),
        "USAGE: build-libunwind --target=<TARGET> --out=<OUT_DIR> [--host=<HOST>] [--sysroot=<SYSROOT>]"
    );
}

#[test]
fn usage_errors_exit_with_one() {
    assert_eq!(USAGE_EXIT_STATUS, 1);
}

#[test]
fn complaint_names_the_unknown_argument() {
    let error = UsageError::UnknownArgument { argument: "--bogus=1".to_string() };
    assert_eq!(complaint(&error).as_deref(), Some("error: unknown argument '--bogus=1'"));
}

#[test]
fn complaint_is_silent_on_missing_keys() {
    assert_eq!(complaint(&UsageError::MissingTarget), None);
    assert_eq!(complaint(&UsageError::MissingOut), None);
}
