use rusify_cli::common::models::{FeatureOptions, InvalidLibType, LibType, Mode};
use rusify_cli::common::cargo::with_build_flags;
use rusify_cli::common::command::Invocation;
use rusify_cli::common::environment::Environment;
use rusify_cli::common::text::{
    chars_of, contains_str, decimal_string, has_extension, join, replace_char, starts_with, str_eq,
};

#[test]
fn lib_type_names() {
    assert_eq!(LibType::Static.identifier(), "staticlib");
    assert_eq!(LibType::Dynamic.identifier(), "cdylib");
    assert_eq!(LibType::Static.file_extension(), "a");
    assert_eq!(LibType::Dynamic.file_extension(), "dylib");
    assert_eq!(LibType::Static.file_extension_android(), "a");
    assert_eq!(LibType::Dynamic.file_extension_android(), "so");
    assert_eq!(LibType::Static.to_string(), "static");
    assert_eq!(LibType::Dynamic.to_string(), "dynamic");
}

#[test]
fn lib_type_from_str_reads_the_two_identifiers() {
    assert_eq!(LibType::from_str("staticlib"), Ok(LibType::Static));
    assert_eq!(LibType::from_str("cdylib"), Ok(LibType::Dynamic));
}

#[test]
fn lib_type_from_str_refuses_anything_else() {
    let err = LibType::from_str("rlib").unwrap_err();
    assert_eq!(err, InvalidLibType { given: "rlib".to_string() });
    assert_eq!(err.message(), "Invalid library type: rlib");
    assert!(LibType::from_str("").is_err());
    assert!(LibType::from_str("Staticlib").is_err());
}

#[test]
fn identifier_round_trips_through_from_str() {
    for t in [LibType::Static, LibType::Dynamic] {
        assert_eq!(LibType::from_str(t.identifier()), Ok(t));
    }
}

#[test]
fn mode_names() {
    assert_eq!(Mode::Debug.to_string(), "debug");
    assert_eq!(Mode::Release.to_string(), "release");
    assert_eq!(Mode::Debug.as_str(), "debug");
    assert_eq!(Mode::Release.as_str(), "release");
}

#[test]
fn decimal_string_renders_numbers() {
    assert_eq!(decimal_string(0), "0");
    assert_eq!(decimal_string(7), "7");
    assert_eq!(decimal_string(10), "10");
    assert_eq!(decimal_string(21), "21");
    assert_eq!(decimal_string(1234567890), "1234567890");
    assert_eq!(decimal_string(u32::MAX), "4294967295");
}

#[test]
fn replace_char_replaces_every_occurrence() {
    assert_eq!(replace_char("aarch64-linux-android", '-', "_"), "aarch64_linux_android");
    assert_eq!(replace_char("C:\\ndk\\bin", '\\', "/"), "C:/ndk/bin");
    assert_eq!(replace_char("C:\\ndk\\bin", '\\', "\\\\"), "C:\\\\ndk\\\\bin");
    assert_eq!(replace_char("a.b.c", '.', ""), "abc");
    assert_eq!(replace_char("", '.', "/"), "");
    assert_eq!(replace_char("none", '.', "/"), "none");
    assert_eq!(replace_char("..", '.', "xy"), "xyxy");
}

#[test]
fn join_puts_the_separator_between_parts() {
    let none: Vec<String> = vec![];
    assert_eq!(join(&none, ","), "");
    assert_eq!(join(&vec!["a".to_string()], ","), "a");
    assert_eq!(join(&vec!["a".to_string(), "b".to_string(), "c".to_string()], ","), "a,b,c");
    assert_eq!(join(&vec!["".to_string(), "".to_string()], " "), " ");
}

#[test]
fn str_eq_and_contains() {
    assert!(str_eq("lib", "lib"));
    assert!(!str_eq("lib", "Lib"));
    assert!(!str_eq("lib", "libs"));
    let kinds = vec!["cdylib".to_string(), "lib".to_string()];
    assert!(contains_str(&kinds, "lib"));
    assert!(!contains_str(&kinds, "bin"));
    assert!(!contains_str(&vec![], "lib"));
}

#[test]
fn chars_of_lists_characters() {
    assert_eq!(chars_of("a-b"), vec!['a', '-', 'b']);
    assert_eq!(chars_of("é!"), vec!['é', '!']);
    assert!(chars_of("").is_empty());
}

#[test]
fn has_extension_follows_the_last_dot() {
    assert!(has_extension("demo.kt", "kt"));
    assert!(has_extension("a.b.kt", "kt"));
    assert!(!has_extension("demo.kts", "kt"));
    assert!(!has_extension("demo.k", "kt"));
    assert!(!has_extension("kt", "kt"));
    assert!(!has_extension(".kt", "kt"));
    assert!(!has_extension("..", ""));
    assert!(has_extension("demo.", ""));
    assert!(!has_extension("demo.kt", ""));
    assert!(has_extension("..kt", "kt"));
    assert!(!has_extension("", "kt"));
}

#[test]
fn build_flags_in_debug_mode_without_features() {
    let features = FeatureOptions { features: None, all_features: false, no_default_features: false };
    let base = Invocation::new("cargo".to_string(), vec!["build".to_string()]);
    let cmd = with_build_flags(base, "aarch64-apple-ios", Mode::Debug, &features);
    assert_eq!(cmd.program, "cargo");
    assert_eq!(cmd.args, vec!["build", "--target", "aarch64-apple-ios"]);
    assert!(cmd.envs.is_empty());
}

#[test]
fn build_flags_in_release_mode_with_every_feature_flag() {
    let features = FeatureOptions {
        features: Some(vec!["x".to_string(), "y".to_string()]),
        all_features: true,
        no_default_features: true,
    };
    let base = Invocation::new("cargo".to_string(), vec![]);
    let cmd = with_build_flags(base, "t", Mode::Release, &features);
    assert_eq!(
        cmd.args,
        vec!["--target", "t", "--release", "--features", "x,y", "--all-features", "--no-default-features"]
    );
}

#[test]
fn release_flag_stands_behind_the_triple_only_in_release_mode() {
    let all = [
        FeatureOptions { features: None, all_features: false, no_default_features: false },
        FeatureOptions { features: Some(vec![]), all_features: false, no_default_features: false },
        FeatureOptions { features: Some(vec!["--release".to_string()]), all_features: true, no_default_features: false },
        FeatureOptions { features: None, all_features: false, no_default_features: true },
    ];
    for features in &all {
        for (mode, release) in [(Mode::Debug, false), (Mode::Release, true)] {
            let cmd = with_build_flags(Invocation::new("cargo".to_string(), vec![]), "t", mode, features);
            assert_eq!(cmd.args[0], "--target");
            assert_eq!(cmd.args[1], "t");
            assert_eq!(cmd.args.len() > 2 && cmd.args[2] == "--release", release);
        }
    }
}

#[test]
fn empty_feature_list_still_passes_the_flag() {
    let features = FeatureOptions { features: Some(vec![]), all_features: false, no_default_features: false };
    let cmd = with_build_flags(Invocation::new("cargo".to_string(), vec![]), "t", Mode::Debug, &features);
    assert_eq!(cmd.args, vec!["--target", "t", "--features", ""]);
}

#[test]
fn invocation_arg_and_env_append_in_order() {
    let mut cmd = Invocation::new("tool".to_string(), vec![]);
    cmd.arg("a");
    cmd.env("K", "1");
    cmd.arg("b");
    cmd.env("K", "2");
    assert_eq!(cmd.args, vec!["a", "b"]);
    assert_eq!(cmd.envs, vec![("K".to_string(), "1".to_string()), ("K".to_string(), "2".to_string())]);
}

#[test]
fn parse_reads_quotes_and_escapes() {
    let cmd = Invocation::parse("mkdir -p \"my dir/out\" a\\ b");
    assert_eq!(cmd.program, "mkdir");
    assert_eq!(cmd.args, vec!["-p", "my dir/out", "a b"]);
    let empty = Invocation::parse("");
    assert_eq!(empty.program, "");
    assert!(empty.args.is_empty());
}

#[test]
fn environment_lookup_takes_the_latest_binding() {
    let mut env = Environment::new();
    assert_eq!(env.get("PATH"), None);
    env.set("PATH", "/bin");
    env.set("CC", "clang");
    assert_eq!(env.get("PATH"), Some("/bin".to_string()));
    env.set("PATH", "/opt:/bin");
    assert_eq!(env.get("PATH"), Some("/opt:/bin".to_string()));
    assert_eq!(env.get("CC"), Some("clang".to_string()));
    assert_eq!(env.get("Path"), None);
    let copy = env.copy();
    assert_eq!(copy, env);
}

#[test]
fn starts_with_compares_the_beginning() {
    assert!(starts_with("/w:/bin", "/w:"));
    assert!(starts_with("/w:", "/w:"));
    assert!(starts_with("abc", ""));
    assert!(starts_with("", ""));
    assert!(!starts_with("/w", "/w:"));
    assert!(!starts_with("/x:/w:", "/w:"));
    assert!(!starts_with("", "a"));
}
