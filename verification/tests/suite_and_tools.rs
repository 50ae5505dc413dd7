//! Tests of the suite aggregation, backend selection, and the
//! build-and-inspect helpers.

use rvt::backend::{
    format_flag, format_flags, select_backend, validate_options, verbosity_from, Backend,
    Verbosity,
};
use rvt::klee;
use rvt::replay;
use rvt::runtools;
use rvt::script;
use rvt::seahorn;
use rvt::smack;
use rvt::status::Status;
use rvt::suite::{exit_code, from_verdicts, strip_package_prefix};
use rvt::text;
use rvt::utils::{from_latin1, Append};

fn lines(ls: &[&str]) -> Vec<String> {
    ls.iter().map(|s| s.to_string()).collect()
}

#[test]
fn suite_counts_and_representative() {
    let r = from_verdicts(&vec![Status::Verified, Status::Overflow]);
    assert_eq!(r.total, 2);
    assert_eq!(r.passed, 1);
    assert_eq!(r.failed, 1);
    assert_eq!(r.status, Status::Overflow);
    assert_ne!(exit_code(&r), 0);
}

#[test]
fn suite_all_verified_exits_zero() {
    let r = from_verdicts(&vec![Status::Verified, Status::Verified]);
    assert_eq!(r.passed, 2);
    assert_eq!(r.failed, 0);
    assert_eq!(r.status, Status::Verified);
    assert_eq!(exit_code(&r), 0);
}

#[test]
fn suite_counts_ignore_order() {
    let a = from_verdicts(&vec![Status::Verified, Status::Overflow, Status::Panic]);
    let b = from_verdicts(&vec![Status::Panic, Status::Verified, Status::Overflow]);
    assert_eq!(a.passed, b.passed);
    assert_eq!(a.failed, b.failed);
    assert_eq!(a.status == Status::Verified, b.status == Status::Verified);
}

#[test]
fn suite_empty_is_verified() {
    let r = from_verdicts(&vec![]);
    assert_eq!(r.total, 0);
    assert_eq!(r.status, Status::Verified);
    assert_eq!(exit_code(&r), 0);
}

#[test]
fn status_labels() {
    assert_eq!(Status::Verified.label(false), "VERIFIED");
    assert_eq!(Status::Verified.label(true), "OK");
    assert_eq!(Status::OutOfBounds.label(false), "OUT_OF_BOUNDS");
    assert_eq!(Status::Unknown.quiet_char(), '?');
    assert_eq!(Status::Verified.quiet_char(), '.');
    assert_eq!(Status::Timeout.quiet_char(), 'T');
}

#[test]
fn backend_selection_prefers_installed() {
    assert_eq!(select_backend(None, false, true, true), Ok(Backend::Klee));
    assert_eq!(select_backend(None, false, false, true), Ok(Backend::Seahorn));
    assert_eq!(select_backend(None, false, false, false), Ok(Backend::Proptest));
    assert_eq!(
        select_backend(Some(Backend::Klee), false, true, false),
        Ok(Backend::Klee)
    );
    assert_eq!(
        select_backend(Some(Backend::Klee), false, false, true),
        Err("Klee is not installed".to_string())
    );
    assert_eq!(
        select_backend(Some(Backend::Seahorn), false, true, false),
        Err("Seahorn is not installed".to_string())
    );
    assert_eq!(
        select_backend(Some(Backend::Proptest), true, false, false),
        Err("backend proptest does not support --output".to_string())
    );
}

#[test]
fn backend_option_validation() {
    assert!(validate_options(Backend::Klee, 2, false).is_ok());
    assert!(validate_options(Backend::Proptest, 0, false).is_ok());
    assert!(validate_options(Backend::Proptest, 1, false).is_err());
    assert!(validate_options(Backend::Seahorn, 0, false).is_err());
    assert!(validate_options(Backend::Seahorn, 1, true).is_err());
    assert!(validate_options(Backend::Seahorn, 0, true).is_ok());
}

#[test]
fn backend_labels_and_features() {
    assert_eq!(Backend::Klee.label(), "klee");
    assert_eq!(Backend::Proptest.label(), "proptest");
    assert_eq!(Backend::Klee.feature(), Some("verifier-klee"));
    assert_eq!(Backend::Seahorn.feature(), Some("verifier-seahorn"));
    assert_eq!(Backend::Proptest.feature(), None);
}

#[test]
fn verbosity_mapping() {
    assert_eq!(verbosity_from(true, 5), Verbosity::Quiet);
    assert_eq!(verbosity_from(false, 0), Verbosity::Normal);
    assert_eq!(verbosity_from(false, 1), Verbosity::Informative);
    assert_eq!(verbosity_from(false, 2), Verbosity::Major);
    assert_eq!(verbosity_from(false, 3), Verbosity::Minor);
    assert_eq!(verbosity_from(false, 9), Verbosity::Trivial);
    assert_eq!(Verbosity::default(), Verbosity::Normal);
}

#[test]
fn flag_placeholders_are_substituted() {
    assert_eq!(
        format_flag("--entry={entry}", "main", "a.bc", "out"),
        "--entry=main"
    );
    assert_eq!(
        format_flag("{file}:{output_dir}", "m", "a.bc", "out"),
        "a.bc:out"
    );
    let flags = format_flags(&lines(&["{entry}", "plain"]), "m", "f", "d");
    assert_eq!(flags, vec!["m".to_string(), "plain".to_string()]);
}

#[test]
fn backend_invocations() {
    let args = klee::command_args(
        "entry_sym",
        "prog.bc",
        "kleeout/t1",
        &lines(&["--use-merge"]),
        false,
        &lines(&[]),
    );
    assert_eq!(
        args,
        vec![
            "--exit-on-error",
            "--entry-point",
            "entry_sym",
            "--libc=klee",
            "--silent-klee-assume",
            "--disable-verify",
            "--output-dir",
            "kleeout/t1",
            "--use-merge",
            "prog.bc",
        ]
        .iter()
        .map(|s| s.to_string())
        .collect::<Vec<_>>()
    );
    let replaced = klee::command_args("e", "f", "d", &lines(&["only"]), true, &lines(&[]));
    assert_eq!(replaced, vec!["only".to_string()]);

    let sea = seahorn::command_args("/vcc", "main_sym", "p.bc", "seaout/t", &lines(&[]), false);
    assert_eq!(
        sea,
        vec![
            "yama",
            "-y",
            "/vcc/seahorn/sea_base.yaml",
            "bpf",
            "--temp-dir=seaout/t",
            "--entry=main_sym",
            "p.bc",
        ]
        .iter()
        .map(|s| s.to_string())
        .collect::<Vec<_>>()
    );

    let sm = smack::command_args("m", "p.bc", &lines(&["-x"]));
    assert_eq!(
        sm,
        vec!["--verifier=boogie", "-x", "--entry-points=m", "p.bc"]
            .iter()
            .map(|s| s.to_string())
            .collect::<Vec<_>>()
    );
}

#[test]
fn output_directories_are_namespaced_per_job() {
    assert_eq!(klee::output_dir("proj/Cargo.toml", "t1"), "proj/kleeout/t1");
    assert_eq!(seahorn::output_dir("proj/Cargo.toml", "t2"), "proj/seaout/t2");
    assert_eq!(smack::output_dir("Cargo.toml", "t3"), "smackout/t3");
}

#[test]
fn package_name_sanitizing() {
    assert_eq!(runtools::sanitize_package_name("my-crate.v2"), "my_crate_v2");
    assert_eq!(runtools::sanitize_package_name("plain_name9"), "plain_name9");
}

#[test]
fn default_host_parsing() {
    let host = runtools::parse_default_host(&lines(&[
        "some banner",
        "Default host:  x86_64-unknown-linux-gnu ",
        "Default host: other",
    ]));
    assert_eq!(host.as_deref(), Some("x86_64-unknown-linux-gnu"));
    assert_eq!(runtools::parse_default_host(&lines(&["nothing"])), None);
}

#[test]
fn nm_fields_and_symbol_counting() {
    assert_eq!(
        runtools::nm_line_fields("0000 T main"),
        Some(("0000".to_string(), "T".to_string(), "main".to_string()))
    );
    assert_eq!(runtools::nm_line_fields("a b c d"), None);
    assert_eq!(runtools::nm_line_fields("ab"), None);
    let n = runtools::count_defined_symbols(
        &lines(&["0000 T main", "0001 t helper", "0002 T other"]),
        &lines(&["main", "_main"]),
    );
    assert_eq!(n, 1);
}

#[test]
fn symbol_matching_demangles() {
    let listing = lines(&[
        "0000000000001000 T _ZN4mine4test17h0123456789abcdefE",
        "0000000000002000 T _start",
    ]);
    let pairs = runtools::match_symbols(&listing, &lines(&["mine::test"])).unwrap();
    assert_eq!(
        pairs,
        vec![(
            "mine::test".to_string(),
            "_ZN4mine4test17h0123456789abcdefE".to_string()
        )]
    );
    let missing = runtools::match_symbols(&listing, &lines(&["mine::test", "mine::other"]));
    assert_eq!(missing, Err(1));
}

#[test]
fn test_listing_parsing() {
    let tests = runtools::parse_test_list(&lines(&[
        "running 2 tests",
        "tests::alpha: test",
        "tests::beta: test  ",
        "tests::gamma: bench",
    ]));
    assert_eq!(tests, vec!["tests::alpha".to_string(), "tests::beta".to_string()]);
}

#[test]
fn build_environment_variables() {
    let envs = runtools::build_env_vars("10", Backend::Klee, None);
    assert_eq!(envs.len(), 4);
    assert_eq!(envs[0].0, "RUSTFLAGS");
    assert!(envs[0].1.starts_with("-Clto -Cembed-bitcode=yes --emit=llvm-bc --cfg=verify"));
    assert!(envs[0].1.contains("-Clinker=clang-10"));
    assert!(envs[0].1.ends_with("-Clink-arg=-Wl,--defsym=klee_is_symbolic=0"));
    assert_eq!(envs[1], ("CRATE_CC_NO_DEFAULTS".to_string(), "true".to_string()));
    assert_eq!(envs[2], ("CFLAGS".to_string(), "-flto=thin".to_string()));
    assert_eq!(envs[3], ("CC".to_string(), "clang-10".to_string()));

    let with_existing = runtools::build_env_vars("11", Backend::Seahorn, Some("-Cfoo"));
    assert!(with_existing[0].1.ends_with(" -Cfoo"));
    assert!(!with_existing[0].1.contains("klee_is_symbolic"));
}

#[test]
fn bitcode_file_selection() {
    assert_eq!(
        runtools::select_bitcode_file(lines(&["a.bc"]), false, "pkg"),
        Ok("a.bc".to_string())
    );
    assert_eq!(
        runtools::select_bitcode_file(lines(&[]), true, "pkg"),
        Err("  FAILED: Use --tests with library crates".to_string())
    );
    assert_eq!(
        runtools::select_bitcode_file(lines(&[]), false, "pkg"),
        Err("  FAILED: Test pkg unable to find the right bitcode file - should you have used --tests?".to_string())
    );
    assert_eq!(
        runtools::select_bitcode_file(lines(&["a.bc", "b.bc"]), false, "pkg"),
        Err("  FAILED: Test pkg compilation error".to_string())
    );
    assert!(runtools::file_name_has_single_dot("deps/pkg-123.bc"));
    assert!(!runtools::file_name_has_single_dot("deps/pkg-123.link.bc"));
}

#[test]
fn command_rendering_escapes() {
    let cmd = script::render_command_line("echo", &lines(&["hello world", "plain"]));
    assert_eq!(cmd, "echo 'hello world' plain");
}

#[test]
fn script_records() {
    let plain = script::render_script_record(None, &vec![], "ls -l");
    assert_eq!(plain, "ls -l\n");
    let full = script::render_script_record(
        Some("/work"),
        &vec![("K".to_string(), "V".to_string())],
        "run x",
    );
    assert_eq!(full, "(\n    cd '/work'\n    export K='V'\n    run x\n)\n");
}

#[test]
fn replay_environment_and_invocation() {
    let envs = replay::replay_env(Some("-Cfoo"), "kleeout/t/test1.ktest");
    assert_eq!(
        envs,
        vec![
            ("RUSTFLAGS".to_string(), "-Cfoo --cfg=verify".to_string()),
            ("KTEST_FILE".to_string(), "kleeout/t/test1.ktest".to_string()),
        ]
    );
    let envs2 = replay::replay_env(None, "k");
    assert_eq!(envs2[0].1, "--cfg=verify");

    let args = replay::replay_command_args(
        true,
        "Cargo.toml",
        &lines(&["f1", "f2"]),
        "t1",
        &lines(&[]),
    );
    assert_eq!(
        args,
        vec![
            "test",
            "--manifest-path",
            "Cargo.toml",
            "--features",
            "f1,f2",
            "t1",
            "--",
            "--nocapture",
        ]
        .iter()
        .map(|s| s.to_string())
        .collect::<Vec<_>>()
    );
    let run_args =
        replay::replay_command_args(false, "Cargo.toml", &lines(&[]), "t1", &lines(&["a", "b"]));
    assert_eq!(
        run_args,
        vec!["run", "--manifest-path", "Cargo.toml", "--", "a", "b"]
            .iter()
            .map(|s| s.to_string())
            .collect::<Vec<_>>()
    );
}

#[test]
fn counterexample_file_naming() {
    assert_eq!(
        replay::ktest_of_err("kleeout/t1/test000001.abort.err"),
        "kleeout/t1/test000001.ktest"
    );
    assert_eq!(
        replay::ktest_of_err("kleeout/t1/test000002.ptr.err"),
        "kleeout/t1/test000002.ktest"
    );
}

#[test]
fn job_names_lose_package_prefix() {
    assert_eq!(strip_package_prefix("pkg::tests::a", "pkg"), "tests::a");
    assert_eq!(strip_package_prefix("other::tests::a", "pkg"), "other::tests::a");
}

#[test]
fn text_utilities() {
    assert!(text::starts_with_str("abcdef", "abc"));
    assert!(!text::starts_with_str("abcdef", "abd"));
    assert!(text::ends_with_str("abcdef", "def"));
    assert!(text::contains_str("abcdef", "cde"));
    assert!(!text::contains_str("abcdef", "xyz"));
    assert_eq!(text::find_str("ababab", "bab"), Some(1));
    assert_eq!(text::strip_prefix_str("abcdef", "abc"), Some("def"));
    assert_eq!(text::strip_suffix_str("abcdef", "def"), Some("abc"));
    assert_eq!(text::trim_str("  x y \t"), "x y");
    assert_eq!(
        text::split_char("a,,b", ','),
        vec!["a".to_string(), "".to_string(), "b".to_string()]
    );
    assert_eq!(text::replace_all("a{x}b{x}", "{x}", "1"), "a1b1");
}

#[test]
fn decimal_writing() {
    assert_eq!(runtools::decimal_string(0), "0");
    assert_eq!(runtools::decimal_string(7), "7");
    assert_eq!(runtools::decimal_string(42), "42");
    assert_eq!(runtools::decimal_string(1009), "1009");
}

#[test]
fn legacy_mangling_rule() {
    assert_eq!(runtools::rust_mangle("foo::bar"), "_ZN3foo3bar");
    assert_eq!(runtools::rust_mangle("main"), "_ZN4main");
    assert_eq!(runtools::rust_mangle("abcdefghijk"), "_ZN11abcdefghijk");
}

#[test]
fn splitting_on_multi_character_pattern() {
    assert_eq!(
        text::split_str("a::b::c", "::"),
        vec!["a".to_string(), "b".to_string(), "c".to_string()]
    );
    assert_eq!(text::split_str("abc", "::"), vec!["abc".to_string()]);
}

#[test]
fn latin1_and_append() {
    assert_eq!(from_latin1(b"abc"), "abc");
    assert_eq!(from_latin1(&[0xE9u8]), "\u{e9}");
    assert_eq!(String::from("foo").append("bar"), "foobar");
}
