use rusify_cli::android::android_target::{AndroidArch, HostOs, SetupStep, ToolchainError};
use rusify_cli::android::package::{
    build_android_package, build_android_package_for_crate, chosen_architectures,
    plan_builds, prompt_architectures, AndroidStep,
};
use rusify_cli::apple::apple_target::ApplePlatform;
use rusify_cli::apple::package::{
    build_swift_package, build_swift_package_for_crate, build_with_output, chosen_platforms,
    prompt_package_name, prompt_platforms, resolve_targets, target_matches, SwiftStep,
};
use rusify_cli::common::environment::Environment;
use rusify_cli::common::error::{chain_failures, failure_report, PackageError};
use rusify_cli::common::metadata::{CrateInfo, CrateTarget};
use rusify_cli::common::models::{Config, FeatureOptions, LibType, Mode};
use rusify_cli::console::prompt::{NamePrompt, SelectionPrompt};

fn default_features() -> FeatureOptions {
    FeatureOptions { features: None, all_features: false, no_default_features: false }
}

fn demo_crate(name: &str) -> CrateInfo {
    CrateInfo {
        name: name.to_string(),
        targets: vec![
            CrateTarget { name: "cli".to_string(), kind: vec!["bin".to_string()] },
            CrateTarget { name: "my-lib".to_string(), kind: vec!["cdylib".to_string(), "lib".to_string()] },
            CrateTarget { name: "other-lib".to_string(), kind: vec!["lib".to_string()] },
        ],
    }
}

fn accept() -> Config {
    Config { silent: true, accept_all: true }
}

fn ask() -> Config {
    Config { silent: false, accept_all: false }
}

fn ndk_env() -> Environment {
    let mut env = Environment::new();
    env.set("ANDROID_NDK_HOME", "/ndk");
    env.set("HOME", "/h");
    env.set("PATH", "/bin");
    env
}

#[test]
fn library_name_is_that_of_the_first_library_target() {
    assert_eq!(demo_crate("Demo").library_name(), Ok("my_lib".to_string()));
    let none = CrateInfo { name: "x".to_string(), targets: vec![CrateTarget { name: "x".to_string(), kind: vec!["bin".to_string()] }] };
    assert_eq!(none.library_name(), Err(PackageError::NoLibraryTarget));
    let empty = CrateInfo { name: "x".to_string(), targets: vec![] };
    assert_eq!(empty.library_name(), Err(PackageError::NoLibraryTarget));
}

#[test]
fn selecting_no_platform_is_an_error() {
    assert_eq!(resolve_targets(&vec![], None), Err(PackageError::NoPlatformSelected));
    assert_eq!(resolve_targets(&vec![], Some("aarch64-apple-ios")), Err(PackageError::NoPlatformSelected));
    assert_eq!(PackageError::NoPlatformSelected.message(), "At least 1 platform needs to be selected!");
}

#[test]
fn one_platform_gives_device_and_simulator_targets() {
    let targets = resolve_targets(&vec![ApplePlatform::IOS], None).unwrap();
    assert_eq!(targets.len(), 2);
    assert_eq!(targets[0].universal_name, None);
    assert_eq!(targets[0].architectures.len(), 1);
    assert_eq!(targets[1].universal_name, Some("universal-ios"));
    assert_eq!(targets[1].architectures.len(), 2);
}

#[test]
fn targets_follow_the_order_of_the_selection() {
    let targets = resolve_targets(&vec![ApplePlatform::TvOS, ApplePlatform::MacOS, ApplePlatform::IOS], None).unwrap();
    let names: Vec<&str> = targets.iter().map(|t| t.display_name).collect();
    assert_eq!(names, vec!["tvOS", "tvOS Simulator", "macOS", "iOS", "iOS Simulator"]);
    let again = resolve_targets(&vec![ApplePlatform::TvOS, ApplePlatform::MacOS, ApplePlatform::IOS], None).unwrap();
    assert_eq!(targets, again);
}

#[test]
fn filter_keeps_the_targets_built_for_the_triple() {
    let all = vec![ApplePlatform::IOS, ApplePlatform::MacOS];
    let targets = resolve_targets(&all, Some("aarch64-apple-ios-sim")).unwrap();
    assert_eq!(targets.len(), 1);
    assert_eq!(targets[0].display_name, "iOS Simulator");
    assert_eq!(targets[0].architectures, vec!["x86_64-apple-ios", "aarch64-apple-ios-sim"]);
    let twice = resolve_targets(&vec![ApplePlatform::IOS, ApplePlatform::IOS], Some("aarch64-apple-ios")).unwrap();
    assert_eq!(twice.len(), 2);
}

#[test]
fn filter_that_matches_nothing_is_an_error_naming_the_filter() {
    let r = resolve_targets(&vec![ApplePlatform::IOS], Some("aarch64-apple-darwin"));
    assert_eq!(r, Err(PackageError::NoMatchingBuildTarget { build_target: "aarch64-apple-darwin".to_string() }));
    assert_eq!(r.unwrap_err().message(), "No matching build target for aarch64-apple-darwin");
    let r = resolve_targets(&vec![ApplePlatform::MacOS], Some(""));
    assert_eq!(r, Err(PackageError::NoMatchingBuildTarget { build_target: "".to_string() }));
}

#[test]
fn target_matches_looks_at_every_triple() {
    let t = resolve_targets(&vec![ApplePlatform::WatchOS], None).unwrap().remove(0);
    assert!(target_matches(&t, None));
    assert!(target_matches(&t, Some("armv7k-apple-watchos")));
    assert!(!target_matches(&t, Some("armv7k-apple-watcho")));
}

#[test]
fn swift_package_name_defaults_to_upper_camel_case() {
    assert_eq!(prompt_package_name("my_crate", true), NamePrompt::Decided("MyCrate".to_string()));
    assert_eq!(prompt_package_name("my-crate", false), NamePrompt::Ask { default: "MyCrate".to_string() });
}

#[test]
fn platform_prompt_offers_all_and_preselects_the_stable_ones() {
    assert_eq!(prompt_platforms(true), SelectionPrompt::Decided(ApplePlatform::all().to_vec()));
    assert_eq!(
        prompt_platforms(false),
        SelectionPrompt::Ask {
            items: vec![
                "macOS".to_string(),
                "iOS".to_string(),
                "tvOS (Experimental)".to_string(),
                "watchOS (Experimental)".to_string(),
                "visionOS (Experimental)".to_string(),
            ],
            defaults: vec![true, true, false, false, false],
        }
    );
    assert_eq!(chosen_platforms(&vec![4, 0, 0]), vec![ApplePlatform::VisionOS, ApplePlatform::MacOS, ApplePlatform::MacOS]);
    assert!(chosen_platforms(&vec![]).is_empty());
}

#[test]
fn apple_build_step_colours_every_command() {
    let t = resolve_targets(&vec![ApplePlatform::MacOS], None).unwrap().remove(0);
    let step = build_with_output(&t, "target", "demo", Mode::Debug, LibType::Static, &default_features());
    assert_eq!(step.title, "Building target macOS");
    assert_eq!(step.commands.len(), 4);
    for cmd in &step.commands {
        assert_eq!(cmd.envs, vec![("CARGO_TERM_COLOR".to_string(), "always".to_string())]);
    }
    assert_eq!(step.commands[3].program, "lipo");
}

#[test]
fn swift_crate_without_library_is_refused_first() {
    let c = CrateInfo { name: "x".to_string(), targets: vec![] };
    let r = build_swift_package_for_crate(&c, &None, None, &None, &ask(), Mode::Debug, LibType::Static, &default_features(), "target");
    assert_eq!(r, Err(PackageError::NoLibraryTarget));
    assert_eq!(PackageError::NoLibraryTarget.message(), "No library tag defined in Cargo.toml!");
}

#[test]
fn swift_questions_come_in_order() {
    let c = demo_crate("My_Demo");
    let r = build_swift_package_for_crate(&c, &None, None, &None, &ask(), Mode::Debug, LibType::Static, &default_features(), "target");
    assert_eq!(r, Ok(SwiftStep::AskPackageName { default: "MyDemo".to_string() }));
    let name = Some("Pkg".to_string());
    let r = build_swift_package_for_crate(&c, &None, None, &name, &ask(), Mode::Debug, LibType::Static, &default_features(), "target");
    assert!(matches!(r, Ok(SwiftStep::AskPlatforms { .. })));
    let r = build_swift_package_for_crate(&c, &Some(vec![]), None, &name, &ask(), Mode::Debug, LibType::Static, &default_features(), "target");
    assert_eq!(r, Err(PackageError::NoPlatformSelected));
}

#[test]
fn swift_plan_with_all_defaults() {
    let c = demo_crate("My_Demo");
    let r = build_swift_package_for_crate(&c, &None, None, &None, &accept(), Mode::Release, LibType::Static, &default_features(), "target");
    let plan = match r {
        Ok(SwiftStep::Build(plan)) => plan,
        other => panic!("{other:?}"),
    };
    assert_eq!(plan.crate_name, "my_lib");
    assert_eq!(plan.package_name, "MyDemo");
    assert!(plan.warnings.is_empty());
    assert_eq!(plan.targets.len(), 9);
    assert_eq!(plan.builds.len(), 9);
    assert_eq!(plan.builds[0].title, "Building target macOS");
    assert_eq!(plan.builds[1].title, "Building target iOS");
    assert_eq!(plan.builds[1].commands.len(), 1);
    assert_eq!(plan.builds[1].commands[0].args, vec!["build", "--target", "aarch64-apple-ios", "--release"]);
    for (build, target) in plan.builds.iter().zip(plan.targets.iter()) {
        assert_eq!(build, &build_with_output(target, "target", "my_lib", Mode::Release, LibType::Static, &default_features()));
    }
}

#[test]
fn dynamic_library_on_apple_warns_and_builds() {
    let c = demo_crate("demo");
    let r = build_swift_package_for_crate(
        &c, &Some(vec![ApplePlatform::IOS]), Some("aarch64-apple-ios"), &Some("P".to_string()),
        &ask(), Mode::Debug, LibType::Dynamic, &default_features(), "target",
    );
    let plan = match r {
        Ok(SwiftStep::Build(plan)) => plan,
        other => panic!("{other:?}"),
    };
    assert_eq!(
        plan.warnings,
        vec!["Building as dynamic library is discouraged. It might prevent apps that use this library from publishing to the App Store."]
    );
    assert_eq!(plan.targets.len(), 1);
    assert_eq!(plan.builds[0].commands.len(), 2);
    assert_eq!(plan.builds[0].commands[1].program, "install_name_tool");
}

#[test]
fn swift_fan_out() {
    let none: Vec<CrateInfo> = vec![];
    let r = build_swift_package(&none, &None, None, &None, &accept(), Mode::Debug, LibType::Static, &default_features(), "t");
    assert_eq!(r, Err(PackageError::NotInCrate));
    assert_eq!(PackageError::NotInCrate.message(), "Current directory is not part of a crate!");

    let one = vec![demo_crate("one")];
    let name = Some("Given".to_string());
    let jobs = build_swift_package(&one, &Some(vec![ApplePlatform::MacOS]), None, &name, &ask(), Mode::Debug, LibType::Static, &default_features(), "t").unwrap();
    assert_eq!(jobs.len(), 1);
    assert_eq!(jobs[0].announcement, None);
    match &jobs[0].first {
        Ok(SwiftStep::Build(plan)) => assert_eq!(plan.package_name, "Given"),
        other => panic!("{other:?}"),
    }

    let broken = CrateInfo { name: "broken".to_string(), targets: vec![] };
    let two = vec![broken, demo_crate("two_b")];
    let r = build_swift_package(&two, &None, None, &name, &accept(), Mode::Debug, LibType::Static, &default_features(), "t");
    assert_eq!(r, Err(PackageError::PackageNameForSeveralCrates));
    assert_eq!(
        PackageError::PackageNameForSeveralCrates.message(),
        "Package name can only be specified when building a single crate!"
    );
    let jobs = build_swift_package(&two, &None, None, &None, &accept(), Mode::Debug, LibType::Static, &default_features(), "t").unwrap();
    assert_eq!(jobs.len(), 2);
    assert_eq!(jobs[0].announcement, Some("Packaging crate broken".to_string()));
    assert_eq!(jobs[0].first, Err(PackageError::NoLibraryTarget));
    assert_eq!(jobs[1].announcement, Some("Packaging crate two_b".to_string()));
    match &jobs[1].first {
        Ok(SwiftStep::Build(plan)) => assert_eq!(plan.package_name, "TwoB"),
        other => panic!("{other:?}"),
    }
}

#[test]
fn failures_of_several_crates_are_chained() {
    assert_eq!(chain_failures(vec![]), Ok(()));
    assert_eq!(chain_failures(vec![PackageError::NoLibraryTarget]), Err(PackageError::NoLibraryTarget));
    let first = PackageError::Failed { message: "first".to_string() };
    let second = PackageError::NoPlatformSelected;
    let third = PackageError::Failed { message: "third".to_string() };
    let chained = chain_failures(vec![first, second, third]).unwrap_err();
    assert_eq!(chained.message(), "third");
    assert_eq!(
        chained,
        PackageError::Chained {
            context: Box::new(PackageError::Failed { message: "third".to_string() }),
            cause: Box::new(PackageError::Chained {
                context: Box::new(PackageError::NoPlatformSelected),
                cause: Box::new(PackageError::Failed { message: "first".to_string() }),
            }),
        }
    );
}

#[test]
fn unset_ndk_home_stops_the_android_build_before_anything_else() {
    let mut env = Environment::new();
    env.set("HOME", "/h");
    let broken = CrateInfo { name: "x".to_string(), targets: vec![] };
    for c in [broken, demo_crate("demo")] {
        for config in [ask(), accept()] {
            let r = build_android_package_for_crate(
                &c, &Some(vec![]), Some("nothing"), 21, &None, &config, Mode::Debug,
                LibType::Static, &default_features(), &env, HostOs::Linux,
            );
            assert_eq!(r, Err(PackageError::NdkHomeNotSet));
        }
    }
    assert_eq!(
        PackageError::NdkHomeNotSet.message(),
        "ANDROID_NDK_HOME environment variable is not set. Please install Android NDK and set this variable: environment variable not found"
    );
}

#[test]
fn android_questions_come_in_order() {
    let env = ndk_env();
    let broken = CrateInfo { name: "x".to_string(), targets: vec![] };
    let r = build_android_package_for_crate(&broken, &None, None, 21, &None, &ask(), Mode::Debug, LibType::Dynamic, &default_features(), &env, HostOs::Linux);
    assert_eq!(r, Err(PackageError::NoLibraryTarget));
    let c = demo_crate("My-Demo");
    let r = build_android_package_for_crate(&c, &None, None, 21, &None, &ask(), Mode::Debug, LibType::Dynamic, &default_features(), &env, HostOs::Linux);
    assert_eq!(r, Ok(AndroidStep::AskPackageName { default: "com.my-demo.my-demo".to_string() }));
    let name = Some("org.demo".to_string());
    let r = build_android_package_for_crate(&c, &None, None, 21, &name, &ask(), Mode::Debug, LibType::Dynamic, &default_features(), &env, HostOs::Linux);
    assert_eq!(
        r,
        Ok(AndroidStep::AskArchitectures {
            items: vec!["ARM64-v8a".to_string(), "ARMv7-a".to_string(), "x86".to_string(), "x86_64".to_string()],
            defaults: vec![true, true, false, true],
        })
    );
    let r = build_android_package_for_crate(&c, &Some(vec![]), None, 21, &name, &ask(), Mode::Debug, LibType::Dynamic, &default_features(), &env, HostOs::Linux);
    assert_eq!(r, Err(PackageError::NoArchitectureSelected));
    assert_eq!(PackageError::NoArchitectureSelected.message(), "At least 1 architecture needs to be selected!");
    let r = build_android_package_for_crate(&c, &Some(vec![AndroidArch::X86]), Some("aarch64-linux-android"), 21, &name, &ask(), Mode::Debug, LibType::Dynamic, &default_features(), &env, HostOs::Linux);
    assert_eq!(r, Err(PackageError::NoMatchingBuildTarget { build_target: "aarch64-linux-android".to_string() }));
}

#[test]
fn architecture_prompt() {
    assert_eq!(prompt_architectures(true), SelectionPrompt::Decided(AndroidArch::all().to_vec()));
    assert_eq!(chosen_architectures(&vec![3, 1]), vec![AndroidArch::X86_64, AndroidArch::ARMV7A]);
}

#[test]
fn static_library_on_android_warns_and_builds() {
    let r = build_android_package_for_crate(
        &demo_crate("demo"), &Some(vec![AndroidArch::ARM64V8A]), None, 21, &Some("org.demo".to_string()),
        &ask(), Mode::Release, LibType::Static, &default_features(), &ndk_env(), HostOs::Linux,
    );
    let plan = match r {
        Ok(AndroidStep::Build(plan)) => plan,
        other => panic!("{other:?}"),
    };
    assert_eq!(
        plan.warnings,
        vec!["Building as static library for Android is unusual. Dynamic libraries (.so) are typically used."]
    );
    assert_eq!(plan.crate_name, "my_lib");
    assert_eq!(plan.package_name, "org.demo");
    assert_eq!(plan.targets.len(), 1);
    assert_eq!(plan.builds.len(), 1);
    assert_eq!(
        plan.targets[0].library_path("target", &plan.crate_name, Mode::Release, LibType::Static),
        "target/aarch64-linux-android/release/libmy_lib.a"
    );
}

#[test]
fn android_builds_thread_the_environment() {
    let targets = vec![AndroidArch::ARM64V8A.target(21), AndroidArch::X86.target(21)];
    let builds = plan_builds(&targets, Mode::Debug, &default_features(), &ndk_env(), HostOs::Linux).unwrap();
    assert_eq!(builds.len(), 2);
    assert_eq!(builds[0].target, "ARM64-v8a");
    assert_eq!(builds[0].step.title, "Building target ARM64-v8a");
    assert_eq!(builds[0].setup, targets[0].setup_environment(&ndk_env(), HostOs::Linux).unwrap());
    let dir = "/h/android-toolchain-bin";
    assert_eq!(
        builds[0].step.commands[0].envs,
        vec![
            ("CARGO_TERM_COLOR".to_string(), "always".to_string()),
            ("PATH".to_string(), format!("{dir}:/bin")),
            ("CC".to_string(), format!("{dir}/aarch64-linux-android-linux-androidclang")),
            ("CC_aarch64_linux_android".to_string(), format!("{dir}/aarch64-linux-android-linux-androidclang")),
            ("TARGET_CC".to_string(), format!("{dir}/aarch64-linux-android-linux-androidclang")),
            ("AR".to_string(), format!("{dir}/aarch64-linux-android-linux-androidar")),
            ("AR_aarch64_linux_android".to_string(), format!("{dir}/aarch64-linux-android-linux-androidar")),
            ("TARGET_AR".to_string(), format!("{dir}/aarch64-linux-android-linux-androidar")),
            ("CFLAGS_aarch64_linux_android".to_string(), "--target=aarch64-linux-android21".to_string()),
            ("TARGET_CFLAGS".to_string(), "--target=aarch64-linux-android21".to_string()),
            ("CARGO_TERM_COLOR".to_string(), "always".to_string()),
        ]
    );
    // the second target is prepared in what the first left behind, where
    // the wrapper directory leads the search path already
    assert_eq!(builds[1].setup[9], SetupStep::SetEnv { name: "PATH".to_string(), value: format!("{dir}:/bin") });
    let second = &builds[1].step.commands[0];
    assert_eq!(second.args, vec!["build", "--target", "i686-linux-android"]);
    assert_eq!(second.envs[1], ("PATH".to_string(), format!("{dir}:/bin")));
    assert_eq!(second.envs[2], ("CC".to_string(), format!("{dir}/i686-linux-android-linux-androidclang")));
    assert_eq!(second.envs[3], ("CC_i686_linux_android".to_string(), format!("{dir}/i686-linux-android-linux-androidclang")));
}

#[test]
fn android_build_without_ndk_names_the_target() {
    let targets = vec![AndroidArch::X86_64.target(21)];
    let r = plan_builds(&targets, Mode::Debug, &default_features(), &Environment::new(), HostOs::Linux);
    let e = r.unwrap_err();
    assert_eq!(e, PackageError::SetupFailed { target: "x86_64".to_string(), cause: ToolchainError::NdkHomeNotSet });
    assert_eq!(e.message(), "Failed to set up build environment for x86_64");
}

#[test]
fn android_fan_out() {
    let env = ndk_env();
    let none: Vec<CrateInfo> = vec![];
    let r = build_android_package(&none, &None, None, 21, &None, &accept(), Mode::Debug, LibType::Dynamic, &default_features(), &env, HostOs::Linux);
    assert_eq!(r, Err(PackageError::NotInCrate));
    let two = vec![demo_crate("A"), CrateInfo { name: "b".to_string(), targets: vec![] }];
    let r = build_android_package(&two, &None, None, 21, &Some("n".to_string()), &accept(), Mode::Debug, LibType::Dynamic, &default_features(), &env, HostOs::Linux);
    assert_eq!(r, Err(PackageError::PackageNameForSeveralCrates));
    let jobs = build_android_package(&two, &None, None, 21, &None, &accept(), Mode::Debug, LibType::Dynamic, &default_features(), &env, HostOs::Linux).unwrap();
    assert_eq!(jobs.len(), 2);
    assert_eq!(jobs[0].announcement, Some("Packaging crate A".to_string()));
    match &jobs[0].first {
        Ok(AndroidStep::Build(plan)) => {
            assert_eq!(plan.package_name, "com.a.a");
            assert_eq!(plan.targets.len(), 4);
            assert!(plan.warnings.is_empty());
        }
        other => panic!("{other:?}"),
    }
    assert_eq!(jobs[1].first, Err(PackageError::NoLibraryTarget));
    let one = vec![demo_crate("A")];
    let jobs = build_android_package(&one, &Some(vec![AndroidArch::X86]), None, 21, &Some("n".to_string()), &ask(), Mode::Debug, LibType::Dynamic, &default_features(), &env, HostOs::Linux).unwrap();
    assert_eq!(jobs.len(), 1);
    assert_eq!(jobs[0].announcement, None);
    assert!(matches!(&jobs[0].first, Ok(AndroidStep::Build(plan)) if plan.package_name == "n"));
}

#[test]
fn failed_run_is_reported_in_one_text() {
    assert_eq!(failure_report("No library tag defined in Cargo.toml!"), "Failed due to the following error: \nNo library tag defined in Cargo.toml!");
}
