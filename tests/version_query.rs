use rustc_hash::FxHashMap;
use toolchain_version::invocation::{Invocation, ManifestPath, QueryConfig, Sysroot};
use toolchain_version::output::parse_output;
use toolchain_version::query::{get, interpret, Execution, QueryError, VersionReport};
use toolchain_version::text::{first_word_of, is_whitespace, strip_prefix_of};
use toolchain_version::tool::Tool;
use toolchain_version::version::Version;

fn cargo_config() -> QueryConfig {
    QueryConfig::Cargo(
        Sysroot { root: Some("/toolchains/stable".to_string()) },
        ManifestPath { dir: "/work/project".to_string(), file_name: "Cargo.toml".to_string() },
    )
}

fn rustc_config() -> QueryConfig {
    QueryConfig::Rustc(Sysroot { root: None }, "/work/project".to_string())
}

fn ran(out: &str) -> impl FnOnce(&Invocation) -> Execution + '_ {
    move |inv: &Invocation| Execution {
        command: format!("{:?} {}", inv.tool, inv.args.join(" ")),
        stdout: Ok(out.to_string()),
    }
}

fn query(config: QueryConfig, out: &str) -> VersionReport {
    get(config, &FxHashMap::default(), ran(out)).unwrap()
}

#[test]
fn cargo_release_is_read() {
    let report = query(cargo_config(), "cargo 1.75.0 (abcdef 2023-12-01)");
    assert_eq!(report.version, Some(Version::new(1, 75, 0)));
    assert!(report.warning.is_none());
}

#[test]
fn rustc_nightly_keeps_prerelease() {
    let report = query(rustc_config(), "rustc 1.70.0-nightly (123abc 2023-05-01)");
    let v = report.version.unwrap();
    assert_eq!((v.major, v.minor, v.patch), (1, 70, 0));
    assert_eq!(v.pre, "nightly");
    assert_eq!(v.build, "");
    assert!(report.warning.is_none());
}

#[test]
fn bare_tool_name_gives_no_version_and_one_warning() {
    let report = query(rustc_config(), "rustc");
    assert!(report.version.is_none());
    let warning = report.warning.unwrap();
    assert!(warning.contains("`rustc`"));
}

#[test]
fn extra_env_reaches_the_invocation() {
    let mut env = FxHashMap::default();
    env.insert("FOO".to_string(), "bar".to_string());
    let mut seen: Option<FxHashMap<String, String>> = None;
    let report = get(cargo_config(), &env, |inv: &Invocation| {
        seen = Some(inv.envs.clone());
        Execution { command: "cargo --version".to_string(), stdout: Ok("cargo 1.75.0".to_string()) }
    })
    .unwrap();
    let seen = seen.unwrap();
    assert_eq!(seen.get("FOO").map(String::as_str), Some("bar"));
    assert_eq!(seen.len(), 1);
    assert_eq!(report.version, Some(Version::new(1, 75, 0)));
}

#[test]
fn invocation_asks_for_version_in_the_right_directory() {
    let mut seen: Option<(Tool, String, Vec<String>, Option<String>)> = None;
    let _ = get(cargo_config(), &FxHashMap::default(), |inv: &Invocation| {
        seen = Some((inv.tool, inv.current_dir.clone(), inv.args.clone(), inv.sysroot.root.clone()));
        Execution { command: String::new(), stdout: Ok(String::new()) }
    });
    let (tool, dir, args, root) = seen.unwrap();
    assert_eq!(tool, Tool::Cargo);
    assert_eq!(dir, "/work/project");
    assert_eq!(args, vec!["--version".to_string()]);
    assert_eq!(root.as_deref(), Some("/toolchains/stable"));

    let mut seen: Option<(Tool, String)> = None;
    let _ = get(QueryConfig::Rustc(Sysroot { root: None }, "/elsewhere".to_string()), &FxHashMap::default(), |inv: &Invocation| {
        seen = Some((inv.tool, inv.current_dir.clone()));
        Execution { command: String::new(), stdout: Ok(String::new()) }
    });
    assert_eq!(seen.unwrap(), (Tool::Rustc, "/elsewhere".to_string()));
}

#[test]
fn manifest_parent_is_its_directory() {
    let m = ManifestPath { dir: "/a/b".to_string(), file_name: "Cargo.toml".to_string() };
    assert_eq!(m.parent(), "/a/b");
}

#[test]
fn well_formed_outputs_read_exactly() {
    assert_eq!(query(cargo_config(), "cargo 0.0.0").version, Some(Version::new(0, 0, 0)));
    assert_eq!(query(cargo_config(), "cargo 10.20.30\n").version, Some(Version::new(10, 20, 30)));
    assert_eq!(query(rustc_config(), "rustc 1.2.3 extra words").version, Some(Version::new(1, 2, 3)));
    assert_eq!(
        query(rustc_config(), "rustc 18446744073709551615.0.1 (x)").version,
        Some(Version::new(u64::MAX, 0, 1))
    );
}

#[test]
fn only_the_first_word_after_the_prefix_counts() {
    assert_eq!(query(cargo_config(), "cargo   1.2.3 x").version, Some(Version::new(1, 2, 3)));
    assert_eq!(query(rustc_config(), "rustc 1.2.3\u{3000}x").version, Some(Version::new(1, 2, 3)));
    assert_eq!(query(rustc_config(), "rustc \t1.2.3\t").version, Some(Version::new(1, 2, 3)));
    let v = query(rustc_config(), "rustc 1.2.3+build.5 x").version.unwrap();
    assert_eq!((v.major, v.minor, v.patch, v.pre.as_str(), v.build.as_str()), (1, 2, 3, "", "build.5"));
}

#[test]
fn missing_prefix_is_soft_failure() {
    for out in ["cargo 1.75.0", "Rustc 1.75.0", "rustc1.75.0", "", " rustc 1.75.0"] {
        let report = query(rustc_config(), out);
        assert!(report.version.is_none(), "{out:?}");
        assert!(report.warning.is_some(), "{out:?}");
    }
    let report = query(cargo_config(), "rustc 1.75.0");
    assert!(report.version.is_none());
    assert!(report.warning.is_some());
}

#[test]
fn non_semver_word_is_soft_failure() {
    for out in ["cargo abc", "cargo 1.75", "cargo 01.2.3", "cargo 1.2.3.4", "cargo ", "cargo 18446744073709551616.0.0"] {
        let report = query(cargo_config(), out);
        assert!(report.version.is_none(), "{out:?}");
        assert!(report.warning.is_some(), "{out:?}");
    }
}

#[test]
fn warning_names_command_and_output() {
    let report = get(cargo_config(), &FxHashMap::default(), |_: &Invocation| Execution {
        command: "\"cargo\" \"--version\"".to_string(),
        stdout: Ok("cargo abc".to_string()),
    })
    .unwrap();
    assert_eq!(
        report.warning.unwrap(),
        "Failed to parse `\"cargo\" \"--version\"` output `cargo abc` as a semver version"
    );
}

#[test]
fn failed_run_is_an_error_naming_the_command() {
    let r = get(rustc_config(), &FxHashMap::default(), |_: &Invocation| Execution {
        command: "\"/bin/rustc\" \"--version\"".to_string(),
        stdout: Err("exit status: 1".to_string()),
    });
    let err: QueryError = r.unwrap_err();
    assert_eq!(err.command, "\"/bin/rustc\" \"--version\"");
    assert_eq!(err.cause, "exit status: 1");
    let message = err.message();
    assert!(message.contains("\"/bin/rustc\" \"--version\""));
    assert_eq!(
        message,
        "Failed to query rust toolchain version via `\"/bin/rustc\" \"--version\"`, is your toolchain setup correctly?"
    );
}

#[test]
fn interpret_reads_output_of_the_given_tool() {
    let e = Execution { command: "c".to_string(), stdout: Ok("rustc 2.0.1".to_string()) };
    let report = interpret(Tool::Rustc, e).unwrap();
    assert_eq!(report.version, Some(Version::new(2, 0, 1)));
    let e = Execution { command: "c".to_string(), stdout: Ok("rustc 2.0.1".to_string()) };
    assert!(interpret(Tool::Cargo, e).unwrap().version.is_none());
}

#[test]
fn parse_output_reads_the_version() {
    assert_eq!(parse_output(Tool::Cargo, "cargo 1.2.3"), Some(Version::new(1, 2, 3)));
    assert_eq!(parse_output(Tool::Cargo, "cargo 1.2.3-beta.1"), {
        let mut v = Version::new(1, 2, 3);
        v.pre = "beta.1".to_string();
        Some(v)
    });
    assert_eq!(parse_output(Tool::Rustc, "cargo 1.2.3"), None);
}

#[test]
fn tool_prefixes() {
    assert_eq!(Tool::Cargo.prefix(), "cargo ");
    assert_eq!(Tool::Rustc.prefix(), "rustc ");
}

#[test]
fn words_and_prefixes() {
    assert_eq!(first_word_of("  ab cd"), Some("ab"));
    assert_eq!(first_word_of("ab"), Some("ab"));
    assert_eq!(first_word_of(" \n\t "), None);
    assert_eq!(first_word_of(""), None);
    assert_eq!(first_word_of("\u{a0}é\u{2028}x"), Some("é"));
    assert_eq!(strip_prefix_of("cargo 1", "cargo "), Some("1"));
    assert_eq!(strip_prefix_of("car", "cargo "), None);
    assert_eq!(strip_prefix_of("éa", "é"), Some("a"));
    assert!(is_whitespace('\u{85}'));
    assert!(is_whitespace(' '));
    assert!(!is_whitespace('\u{200b}'));
    assert!(!is_whitespace('a'));
}
