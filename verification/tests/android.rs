use rusify_cli::android::android_target::{
    apply_env, ar_path, build_command, cargo_config, clang_path, env_suffix, forward,
    library_file_name, require_outcome, search_path, toolchain_path, AndroidArch, AndroidTarget,
    HostOs, SetupStep, ToolchainError,
};
use rusify_cli::common::command::Invocation;
use rusify_cli::common::environment::Environment;
use rusify_cli::common::models::{FeatureOptions, LibType, Mode};

fn no_features() -> FeatureOptions {
    FeatureOptions { features: None, all_features: false, no_default_features: false }
}

fn env_of(pairs: &[(&str, &str)]) -> Environment {
    let mut env = Environment::new();
    for (k, v) in pairs {
        env.set(k, v);
    }
    env
}

fn pair(k: &str, v: &str) -> (String, String) {
    (k.to_string(), v.to_string())
}

fn create_dir(path: &str) -> SetupStep {
    SetupStep::CreateDir { path: path.to_string() }
}

fn write_file(path: &str, content: &str) -> SetupStep {
    SetupStep::WriteFile { path: path.to_string(), content: content.to_string() }
}

fn executable(path: &str) -> SetupStep {
    SetupStep::MakeExecutable { path: path.to_string() }
}

fn require(path: &str) -> SetupStep {
    SetupStep::RequireFile { path: path.to_string() }
}

fn set_env(name: &str, value: &str) -> SetupStep {
    SetupStep::SetEnv { name: name.to_string(), value: value.to_string() }
}

#[test]
fn architectures_and_their_targets() {
    assert_eq!(AndroidArch::all(), [AndroidArch::ARM64V8A, AndroidArch::ARMV7A, AndroidArch::X86, AndroidArch::X86_64]);
    let expected = [
        (AndroidArch::ARM64V8A, "aarch64-linux-android", "ARM64-v8a", "arm64-v8a"),
        (AndroidArch::ARMV7A, "armv7-linux-androideabi", "ARMv7-a", "armeabi-v7a"),
        (AndroidArch::X86, "i686-linux-android", "x86", "x86"),
        (AndroidArch::X86_64, "x86_64-linux-android", "x86_64", "x86_64"),
    ];
    for (arch, triple, display, ndk) in expected {
        let t = arch.target(24);
        assert_eq!(t, AndroidTarget { architectures: vec![triple], display_name: display, ndk_arch: ndk, api_level: 24 });
        assert_eq!(arch.display_name(), display);
        assert_eq!(t.architectures(), &[triple]);
        assert_eq!(t.display_name(), display);
        assert_eq!(arch.target(24), t);
    }
}

#[test]
fn library_location() {
    let t = AndroidArch::ARMV7A.target(21);
    assert_eq!(t.library_directory("target", Mode::Debug), "target/armv7-linux-androideabi/debug");
    assert_eq!(
        t.library_path("/w/target", "demo", Mode::Release, LibType::Dynamic),
        "/w/target/armv7-linux-androideabi/release/libdemo.so"
    );
    assert_eq!(library_file_name("demo", LibType::Dynamic), "libdemo.so");
}

#[test]
fn static_library_keeps_the_static_extension() {
    let t = AndroidArch::X86.target(21);
    assert_eq!(library_file_name("demo", LibType::Static), "libdemo.a");
    assert_eq!(t.library_path("target", "demo", Mode::Debug, LibType::Static), "target/i686-linux-android/debug/libdemo.a");
}

#[test]
fn tool_paths_per_host() {
    assert_eq!(toolchain_path("/ndk", HostOs::Linux), "/ndk/toolchains/llvm/prebuilt/linux-x86_64");
    assert_eq!(toolchain_path("/ndk", HostOs::Darwin), "/ndk/toolchains/llvm/prebuilt/darwin-x86_64");
    assert_eq!(toolchain_path("C:\\ndk", HostOs::Windows), "C:\\ndk\\toolchains\\llvm\\prebuilt\\windows-x86_64");
    assert_eq!(ar_path("/tc", HostOs::Linux), "/tc/bin/llvm-ar");
    assert_eq!(ar_path("C:\\tc", HostOs::Windows), "C:\\tc\\bin\\llvm-ar.exe");
    assert_eq!(clang_path("/tc", HostOs::Darwin, "aarch64-linux-android", 21), "/tc/bin/aarch64-linux-android21-clang");
    assert_eq!(clang_path("C:\\tc", HostOs::Windows, "i686-linux-android", 33), "C:\\tc\\bin\\i686-linux-android33-clang.exe");
    assert_eq!(HostOs::Linux.name(), "linux");
    assert_eq!(HostOs::Windows.path_separator(), "\\");
    assert_eq!(HostOs::Darwin.path_separator(), "/");
    assert_eq!(HostOs::Windows.exe_suffix(), ".exe");
    assert_eq!(HostOs::Linux.exe_suffix(), "");
    assert_eq!(HostOs::Windows.search_path_separator(), ";");
    assert_eq!(HostOs::Darwin.search_path_separator(), ":");
}

#[test]
fn cargo_config_uses_forward_slashes() {
    assert_eq!(
        cargo_config("x86_64-linux-android", "C:\\tc\\bin\\llvm-ar.exe", "C:\\tc\\bin\\x86_64-linux-android21-clang.exe"),
        "[target.x86_64-linux-android]\nar = \"C:/tc/bin/llvm-ar.exe\"\nlinker = \"C:/tc/bin/x86_64-linux-android21-clang.exe\"\n"
    );
}

#[test]
fn env_suffix_turns_dashes_into_underscores() {
    assert_eq!(env_suffix("aarch64-linux-android"), "aarch64_linux_android");
    assert_eq!(env_suffix("x86_64-linux-android"), "x86_64_linux_android");
    assert_eq!(env_suffix(""), "");
}

#[test]
fn unset_ndk_home_fails_the_setup() {
    let t = AndroidArch::ARM64V8A.target(21);
    let env = env_of(&[("HOME", "/home/u"), ("PATH", "/usr/bin")]);
    let r = t.setup_environment(&env, HostOs::Linux);
    assert_eq!(r, Err(ToolchainError::NdkHomeNotSet));
    assert_eq!(
        ToolchainError::NdkHomeNotSet.message(),
        "Error: ANDROID_NDK_HOME environment variable is not set. Please install Android NDK and set ANDROID_NDK_HOME."
    );
}

#[test]
fn missing_tool_message_names_the_path() {
    let e = ToolchainError::ToolNotFound { path: "/ndk/bin/llvm-ar".to_string() };
    assert_eq!(e.message(), "Android NDK tool not found: /ndk/bin/llvm-ar. Please check your ANDROID_NDK_HOME setting.");
}

#[test]
fn setup_on_linux() {
    let t = AndroidArch::ARM64V8A.target(21);
    let env = env_of(&[("ANDROID_NDK_HOME", "/ndk"), ("HOME", "/home/u"), ("PATH", "/usr/bin")]);
    let steps = t.setup_environment(&env, HostOs::Linux).unwrap();
    let tc = "/ndk/toolchains/llvm/prebuilt/linux-x86_64";
    let ar = format!("{tc}/bin/llvm-ar");
    let clang = format!("{tc}/bin/aarch64-linux-android21-clang");
    let dir = "/home/u/android-toolchain-bin";
    let w_clang = format!("{dir}/aarch64-linux-android-linux-androidclang");
    let w_ar = format!("{dir}/aarch64-linux-android-linux-androidar");
    let expected = vec![
        create_dir(".cargo"),
        write_file(
            ".cargo/config.toml",
            &format!("[target.aarch64-linux-android]\nar = \"{ar}\"\nlinker = \"{clang}\"\n"),
        ),
        require(&ar),
        require(&clang),
        create_dir(dir),
        write_file(&w_clang, &format!("#!/bin/sh\nexec \"{clang}\" \"$@\"\n")),
        write_file(&w_ar, &format!("#!/bin/sh\nexec \"{ar}\" \"$@\"\n")),
        executable(&w_clang),
        executable(&w_ar),
        set_env("PATH", &format!("{dir}:/usr/bin")),
        set_env("CC", &w_clang),
        set_env("CC_aarch64_linux_android", &w_clang),
        set_env("TARGET_CC", &w_clang),
        set_env("AR", &w_ar),
        set_env("AR_aarch64_linux_android", &w_ar),
        set_env("TARGET_AR", &w_ar),
        set_env("CFLAGS_aarch64_linux_android", "--target=aarch64-linux-android21"),
        set_env("TARGET_CFLAGS", "--target=aarch64-linux-android21"),
    ];
    assert_eq!(steps, expected);
}

#[test]
fn setup_on_windows_writes_batch_files() {
    let t = AndroidArch::X86_64.target(30);
    let env = env_of(&[("ANDROID_NDK_HOME", "C:\\ndk"), ("HOME", "C:\\Users\\u"), ("PATH", "C:\\bin")]);
    let steps = t.setup_environment(&env, HostOs::Windows).unwrap();
    let tc = "C:\\ndk\\toolchains\\llvm\\prebuilt\\windows-x86_64";
    let ar = format!("{tc}\\bin\\llvm-ar.exe");
    let clang = format!("{tc}\\bin\\x86_64-linux-android30-clang.exe");
    let dir = "C:\\Users\\u\\android-toolchain-bin";
    let stem_clang = format!("{dir}\\x86_64-linux-android-linux-androidclang");
    let stem_ar = format!("{dir}\\x86_64-linux-android-linux-androidar");
    let expected = vec![
        create_dir(".cargo"),
        write_file(
            ".cargo/config.toml",
            "[target.x86_64-linux-android]\nar = \"C:/ndk/toolchains/llvm/prebuilt/windows-x86_64/bin/llvm-ar.exe\"\nlinker = \"C:/ndk/toolchains/llvm/prebuilt/windows-x86_64/bin/x86_64-linux-android30-clang.exe\"\n",
        ),
        require(&ar),
        require(&clang),
        create_dir(dir),
        write_file(
            &format!("{stem_clang}.exe"),
            "@echo off\r\n\"C:\\\\ndk\\\\toolchains\\\\llvm\\\\prebuilt\\\\windows-x86_64\\\\bin\\\\x86_64-linux-android30-clang.exe\" %*\r\n",
        ),
        write_file(
            &format!("{stem_ar}.exe"),
            "@echo off\r\n\"C:\\\\ndk\\\\toolchains\\\\llvm\\\\prebuilt\\\\windows-x86_64\\\\bin\\\\llvm-ar.exe\" %*\r\n",
        ),
        set_env("PATH", &format!("{dir};C:\\bin")),
        set_env("CC", &stem_clang),
        set_env("CC_x86_64_linux_android", &stem_clang),
        set_env("TARGET_CC", &stem_clang),
        set_env("AR", &stem_ar),
        set_env("AR_x86_64_linux_android", &stem_ar),
        set_env("TARGET_AR", &stem_ar),
        set_env("CFLAGS_x86_64_linux_android", "--target=x86_64-linux-android30"),
        set_env("TARGET_CFLAGS", "--target=x86_64-linux-android30"),
    ];
    assert_eq!(steps, expected);
}

#[test]
fn setup_without_home_and_path_uses_defaults() {
    let t = AndroidArch::X86.target(21);
    let env = env_of(&[("ANDROID_NDK_HOME", "/ndk")]);
    let steps = t.setup_environment(&env, HostOs::Darwin).unwrap();
    assert_eq!(steps[4], create_dir("./android-toolchain-bin"));
    assert_eq!(steps[9], set_env("PATH", "./android-toolchain-bin:"));
    assert_eq!(steps[2], require("/ndk/toolchains/llvm/prebuilt/darwin-x86_64/bin/llvm-ar"));
}

#[test]
fn setup_twice_in_the_same_environment_plans_the_same_steps() {
    let t = AndroidArch::ARMV7A.target(23);
    let env = env_of(&[("ANDROID_NDK_HOME", "/ndk"), ("HOME", "/h")]);
    let first = t.setup_environment(&env, HostOs::Linux).unwrap();
    let second = t.setup_environment(&env, HostOs::Linux).unwrap();
    assert_eq!(first, second);
    let shim = t.setup_ring_specific_fixes(&env, "/tc", HostOs::Linux, 23);
    assert_eq!(shim.len(), 14);
    assert_eq!(shim[0], create_dir("/h/android-toolchain-bin"));
}

#[test]
fn wrappers_are_written_for_every_triple() {
    let t = AndroidTarget { architectures: vec!["a-b", "c-d"], display_name: "two", ndk_arch: "two", api_level: 9 };
    let env = env_of(&[("HOME", "/h"), ("PATH", "/p")]);
    let shim = t.setup_ring_specific_fixes(&env, "/tc", HostOs::Linux, 9);
    assert_eq!(shim.len(), 1 + 4 + 4 + 9);
    assert_eq!(shim[1], write_file("/h/android-toolchain-bin/a-b-linux-androidclang", "#!/bin/sh\nexec \"/tc/bin/a-b9-clang\" \"$@\"\n"));
    assert_eq!(shim[5], write_file("/h/android-toolchain-bin/c-d-linux-androidclang", "#!/bin/sh\nexec \"/tc/bin/c-d9-clang\" \"$@\"\n"));
    assert_eq!(shim[8], executable("/h/android-toolchain-bin/c-d-linux-androidar"));
    assert_eq!(shim[10], set_env("CC", "/h/android-toolchain-bin/a-b-linux-androidclang"));
    assert_eq!(shim[11], set_env("CC_a_b", "/h/android-toolchain-bin/a-b-linux-androidclang"));
}

#[test]
fn apply_env_sets_the_variables_of_the_steps() {
    let env = env_of(&[("PATH", "/usr/bin"), ("KEEP", "1")]);
    let steps = vec![create_dir("d"), set_env("PATH", "/w:/usr/bin"), require("f"), set_env("CC", "clang")];
    let after = apply_env(&env, &steps);
    assert_eq!(after.get("PATH"), Some("/w:/usr/bin".to_string()));
    assert_eq!(after.get("CC"), Some("clang".to_string()));
    assert_eq!(after.get("KEEP"), Some("1".to_string()));
    assert_eq!(after.vars.len(), 4);
    assert_eq!(apply_env(&env, &vec![]), env);
}

#[test]
fn forward_hands_on_only_what_is_set() {
    let env = env_of(&[("CC", "clang")]);
    let cmd = forward(Invocation::new("cargo".to_string(), vec![]), &env, "CC");
    assert_eq!(cmd.envs, vec![pair("CC", "clang")]);
    let cmd = forward(cmd, &env, "AR");
    assert_eq!(cmd.envs, vec![pair("CC", "clang")]);
}

#[test]
fn build_in_an_empty_environment_sets_only_the_colour() {
    let t = AndroidArch::ARM64V8A.target(21);
    let plan = t.cargo_build_commands(Mode::Debug, &no_features(), &Environment::new());
    assert_eq!(plan.len(), 1);
    assert_eq!(plan[0].program, "cargo");
    assert_eq!(plan[0].args, vec!["build", "--target", "aarch64-linux-android"]);
    assert_eq!(plan[0].envs, vec![pair("CARGO_TERM_COLOR", "always")]);
}

#[test]
fn build_forwards_the_variables_that_are_set_in_order() {
    let t = AndroidArch::ARM64V8A.target(21);
    let env = env_of(&[
        ("TARGET_CFLAGS", "-O2"),
        ("AR_aarch64_linux_android", "ar1"),
        ("UNRELATED", "x"),
        ("CC", "cc0"),
        ("PATH", "/bin"),
        ("CC_armv7_linux_androideabi", "other"),
        ("CFLAGS_aarch64_linux_android", "-g"),
    ]);
    let plan = t.cargo_build_commands(Mode::Release, &no_features(), &env);
    assert_eq!(plan[0].args, vec!["build", "--target", "aarch64-linux-android", "--release"]);
    assert_eq!(
        plan[0].envs,
        vec![
            pair("CARGO_TERM_COLOR", "always"),
            pair("PATH", "/bin"),
            pair("CC", "cc0"),
            pair("AR_aarch64_linux_android", "ar1"),
            pair("CFLAGS_aarch64_linux_android", "-g"),
            pair("TARGET_CFLAGS", "-O2"),
        ]
    );
}

#[test]
fn build_forwards_all_nine_variables_when_all_are_set() {
    let names = ["PATH", "CC", "CC_t_1", "TARGET_CC", "AR", "AR_t_1", "TARGET_AR", "CFLAGS_t_1", "TARGET_CFLAGS"];
    let mut env = Environment::new();
    for n in names.iter().rev() {
        env.set(n, &format!("v-{n}"));
    }
    let cmd = build_command(Invocation::new("cargo".to_string(), vec![]), "t-1", Mode::Debug, &no_features(), &env);
    assert_eq!(cmd.args, vec!["--target", "t-1"]);
    let mut expected = vec![pair("CARGO_TERM_COLOR", "always")];
    for n in names {
        expected.push(pair(n, &format!("v-{n}")));
    }
    assert_eq!(cmd.envs, expected);
}

#[test]
fn commands_are_the_builds() {
    let t = AndroidArch::X86.target(21);
    let env = env_of(&[("CC", "clang")]);
    assert!(t.setup_commands().is_empty());
    assert_eq!(
        t.commands("demo", Mode::Debug, LibType::Dynamic, &no_features(), &env),
        t.cargo_build_commands(Mode::Debug, &no_features(), &env)
    );
}

#[test]
fn search_path_gets_the_directory_in_front_once() {
    assert_eq!(search_path("/w", ":", "/usr/bin"), "/w:/usr/bin");
    assert_eq!(search_path("/w", ":", "/w:/usr/bin"), "/w:/usr/bin");
    assert_eq!(search_path("/w", ":", ""), "/w:");
    assert_eq!(search_path("/w", ":", "/w:"), "/w:");
    assert_eq!(search_path("/w", ":", "/w"), "/w:/w");
    assert_eq!(search_path("/w", ":", "/usr/bin:/w:"), "/w:/usr/bin:/w:");
    assert_eq!(search_path("C:\\w", ";", "C:\\w;C:\\bin"), "C:\\w;C:\\bin");
}

#[test]
fn preparing_again_plans_the_same_steps_and_values() {
    for host in [HostOs::Linux, HostOs::Darwin, HostOs::Windows] {
        for env in [
            env_of(&[("ANDROID_NDK_HOME", "/ndk"), ("HOME", "/h"), ("PATH", "/bin")]),
            env_of(&[("ANDROID_NDK_HOME", "/ndk")]),
            env_of(&[("ANDROID_NDK_HOME", "/ndk"), ("CC", "gcc"), ("PATH", "")]),
        ] {
            let t = AndroidArch::ARM64V8A.target(21);
            let first = t.setup_environment(&env, host).unwrap();
            let once = apply_env(&env, &first);
            let again = t.setup_environment(&once, host).unwrap();
            assert_eq!(again, first);
            let twice = apply_env(&once, &again);
            for name in [
                "PATH", "CC", "CC_aarch64_linux_android", "TARGET_CC", "AR",
                "AR_aarch64_linux_android", "TARGET_AR", "CFLAGS_aarch64_linux_android",
                "TARGET_CFLAGS", "HOME", "ANDROID_NDK_HOME",
            ] {
                assert_eq!(twice.get(name), once.get(name));
            }
        }
    }
}

#[test]
fn a_required_tool_that_is_missing_stops_the_preparation() {
    assert_eq!(require_outcome("/ndk/bin/llvm-ar", true), Ok(()));
    assert_eq!(
        require_outcome("/ndk/bin/llvm-ar", false),
        Err(ToolchainError::ToolNotFound { path: "/ndk/bin/llvm-ar".to_string() })
    );
}
