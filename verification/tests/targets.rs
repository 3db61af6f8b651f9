use rusify_cli::apple::apple_target::{
    library_file_name, ApplePlatform, ApplePlatformTarget, AppleTarget,
};
use rusify_cli::common::command::{parse_lines, Invocation};
use rusify_cli::common::models::{FeatureOptions, LibType, Mode};

fn plain_features() -> FeatureOptions {
    FeatureOptions { features: None, all_features: false, no_default_features: false }
}

fn variant(platform: ApplePlatform, is_simulator: bool) -> AppleTarget {
    ApplePlatformTarget { platform, is_simulator }.target()
}

#[test]
fn ios_expands_to_device_and_simulator() {
    let variants = ApplePlatform::IOS.into_apple_platform_target();
    assert_eq!(variants.len(), 2);
    assert!(!variants[0].is_simulator);
    assert!(variants[1].is_simulator);
    let device = variants[0].target();
    let simulator = variants[1].target();
    assert_eq!(device.universal_name, None);
    assert_eq!(device.architectures, vec!["aarch64-apple-ios"]);
    assert_eq!(device.display_name, "iOS");
    assert_eq!(simulator.universal_name, Some("universal-ios"));
    assert_eq!(simulator.architectures, vec!["x86_64-apple-ios", "aarch64-apple-ios-sim"]);
    assert_eq!(simulator.display_name, "iOS Simulator");
}

#[test]
fn macos_has_no_simulator() {
    let variants = ApplePlatform::MacOS.into_apple_platform_target();
    assert_eq!(variants, vec![ApplePlatformTarget { platform: ApplePlatform::MacOS, is_simulator: false }]);
    for sim in [false, true] {
        let t = variant(ApplePlatform::MacOS, sim);
        assert_eq!(t.universal_name, Some("universal-macos"));
        assert_eq!(t.architectures, vec!["x86_64-apple-darwin", "aarch64-apple-darwin"]);
        assert_eq!(t.display_name, "macOS");
        assert_eq!(t.platform.is_simulator, sim);
    }
}

#[test]
fn every_variant_has_its_triples() {
    let t = variant(ApplePlatform::TvOS, false);
    assert_eq!((t.universal_name, t.architectures, t.display_name), (None, vec!["aarch64-apple-tvos"], "tvOS"));
    let t = variant(ApplePlatform::TvOS, true);
    assert_eq!(t.universal_name, Some("universal-tvos-simulator"));
    assert_eq!(t.architectures, vec!["aarch64-apple-tvos-sim", "x86_64-apple-tvos"]);
    assert_eq!(t.display_name, "tvOS Simulator");
    let t = variant(ApplePlatform::WatchOS, false);
    assert_eq!(t.universal_name, Some("universal-watchos"));
    assert_eq!(t.architectures, vec!["aarch64-apple-watchos", "arm64_32-apple-watchos", "armv7k-apple-watchos"]);
    assert_eq!(t.display_name, "watchOS");
    let t = variant(ApplePlatform::WatchOS, true);
    assert_eq!(t.universal_name, Some("universal-watchos-sim"));
    assert_eq!(t.architectures, vec!["aarch64-apple-watchos-sim", "x86_64-apple-watchos-sim"]);
    assert_eq!(t.display_name, "watchOS Simulator");
    let t = variant(ApplePlatform::VisionOS, false);
    assert_eq!((t.universal_name, t.architectures, t.display_name), (None, vec!["aarch64-apple-visionos"], "visionOS"));
    let t = variant(ApplePlatform::VisionOS, true);
    assert_eq!((t.universal_name, t.architectures, t.display_name), (None, vec!["aarch64-apple-visionos-sim"], "visionOS Simulator"));
}

#[test]
fn universal_name_goes_with_several_triples() {
    for platform in ApplePlatform::all() {
        for v in platform.into_apple_platform_target() {
            let t = v.target();
            assert!(!t.architectures.is_empty());
            assert_eq!(t.universal_name.is_some(), t.architectures.len() > 1);
            assert_eq!(t.platform(), v);
            assert_eq!(t.architectures(), &t.architectures[..]);
            assert_eq!(t.display_name(), t.display_name);
        }
    }
}

#[test]
fn resolving_twice_gives_the_same_target() {
    for platform in ApplePlatform::all() {
        for sim in [false, true] {
            assert_eq!(variant(platform, sim), variant(platform, sim));
        }
    }
}

#[test]
fn platform_names_and_tiers() {
    assert_eq!(
        ApplePlatform::all(),
        [ApplePlatform::MacOS, ApplePlatform::IOS, ApplePlatform::TvOS, ApplePlatform::WatchOS, ApplePlatform::VisionOS]
    );
    assert_eq!(ApplePlatform::MacOS.display_name(), "macOS");
    assert_eq!(ApplePlatform::IOS.display_name(), "iOS");
    assert_eq!(ApplePlatform::TvOS.display_name(), "tvOS (Experimental)");
    assert_eq!(ApplePlatform::WatchOS.display_name(), "watchOS (Experimental)");
    assert_eq!(ApplePlatform::VisionOS.display_name(), "visionOS (Experimental)");
    for p in [ApplePlatform::MacOS, ApplePlatform::IOS] {
        assert!(!p.is_experimental());
        assert!(!p.is_tier_3());
    }
    for p in [ApplePlatform::TvOS, ApplePlatform::WatchOS, ApplePlatform::VisionOS] {
        assert!(p.is_experimental());
        assert!(p.is_tier_3());
    }
}

#[test]
fn parse_splits_program_and_arguments() {
    let c = Invocation::parse("cargo +nightly build -Z build-std");
    assert_eq!(c.program, "cargo");
    assert_eq!(c.args, vec!["+nightly", "build", "-Z", "build-std"]);
    assert!(c.envs.is_empty());
}

#[test]
fn library_paths_of_a_universal_target() {
    let t = variant(ApplePlatform::IOS, true);
    assert_eq!(t.library_directory("target", Mode::Debug), "target/universal-ios/debug");
    assert_eq!(t.library_path("target", "demo", Mode::Release, LibType::Static), "target/universal-ios/release/libdemo.a");
}

#[test]
fn library_paths_of_a_single_triple_target() {
    let t = variant(ApplePlatform::IOS, false);
    assert_eq!(t.library_directory("/w/target", Mode::Release), "/w/target/aarch64-apple-ios/release");
    assert_eq!(t.library_path("/w/target", "demo", Mode::Debug, LibType::Dynamic), "/w/target/aarch64-apple-ios/debug/libdemo.dylib");
    assert_eq!(library_file_name("demo", LibType::Static), "libdemo.a");
    assert_eq!(library_file_name("demo", LibType::Dynamic), "libdemo.dylib");
}

#[test]
fn one_build_per_triple_in_order() {
    let t = variant(ApplePlatform::WatchOS, false);
    for (mode, release) in [(Mode::Debug, false), (Mode::Release, true)] {
        let plan = t.cargo_build_commands(mode, &plain_features());
        assert_eq!(plan.len(), 3);
        for (cmd, triple) in plan.iter().zip(t.architectures.iter()) {
            assert_eq!(cmd.program, "cargo");
            assert_eq!(&cmd.args[..6], &["+nightly", "build", "-Z", "build-std", "--target", *triple]);
            assert_eq!(cmd.args.iter().any(|a| a == "--release"), release);
            assert_eq!(cmd.args.len(), if release { 7 } else { 6 });
        }
    }
}

#[test]
fn supported_platforms_build_with_the_stable_toolchain() {
    let t = variant(ApplePlatform::IOS, false);
    let plan = t.cargo_build_commands(Mode::Release, &plain_features());
    assert_eq!(plan.len(), 1);
    assert_eq!(plan[0].args, vec!["build", "--target", "aarch64-apple-ios", "--release"]);
}

#[test]
fn single_triple_target_needs_no_merge() {
    let t = variant(ApplePlatform::IOS, false);
    assert!(t.lipo_commands("target", "demo", Mode::Debug, LibType::Static).is_empty());
    let none = AppleTarget { universal_name: Some("u"), architectures: vec![], display_name: "none", platform: t.platform };
    assert!(none.lipo_commands("target", "demo", Mode::Debug, LibType::Static).is_empty());
}

#[test]
fn merge_reads_every_triple_in_order() {
    let t = variant(ApplePlatform::WatchOS, false);
    let plan = t.lipo_commands("target", "demo", Mode::Debug, LibType::Static);
    assert_eq!(plan.len(), 2);
    assert_eq!(plan[0].program, "mkdir");
    assert_eq!(plan[0].args, vec!["-p", "target/universal-watchos/debug"]);
    assert_eq!(plan[1].program, "lipo");
    assert_eq!(
        plan[1].args,
        vec![
            "target/aarch64-apple-watchos/debug/libdemo.a",
            "target/arm64_32-apple-watchos/debug/libdemo.a",
            "target/armv7k-apple-watchos/debug/libdemo.a",
            "-create",
            "-output",
            "target/universal-watchos/debug/libdemo.a",
        ]
    );
}

#[test]
fn install_name_is_fixed_for_dynamic_libraries_only() {
    let t = variant(ApplePlatform::IOS, false);
    assert!(t.rpath_install_id_commands("target", "demo", Mode::Debug, LibType::Static).is_empty());
    let plan = t.rpath_install_id_commands("target", "demo", Mode::Debug, LibType::Dynamic);
    assert_eq!(plan.len(), 1);
    assert_eq!(plan[0].program, "install_name_tool");
    assert_eq!(plan[0].args, vec!["-id", "@rpath/libdemo.dylib", "target/aarch64-apple-ios/debug/libdemo.dylib"]);
}

#[test]
fn macos_commands_build_merge_and_fix() {
    let t = variant(ApplePlatform::MacOS, false);
    let features = FeatureOptions { features: Some(vec!["a".to_string(), "b".to_string()]), all_features: false, no_default_features: true };
    let plan = t.commands("target", "demo", Mode::Release, LibType::Dynamic, &features);
    assert_eq!(plan.len(), 5);
    assert_eq!(plan[0].program, "cargo");
    assert_eq!(plan[0].args, vec!["build", "--target", "x86_64-apple-darwin", "--release", "--features", "a,b", "--no-default-features"]);
    assert_eq!(plan[1].args, vec!["build", "--target", "aarch64-apple-darwin", "--release", "--features", "a,b", "--no-default-features"]);
    assert_eq!(plan[2].program, "mkdir");
    assert_eq!(plan[2].args, vec!["-p", "target/universal-macos/release"]);
    assert_eq!(plan[3].program, "lipo");
    assert_eq!(plan[3].args, vec![
        "target/x86_64-apple-darwin/release/libdemo.dylib",
        "target/aarch64-apple-darwin/release/libdemo.dylib",
        "-create", "-output", "target/universal-macos/release/libdemo.dylib"]);
    assert_eq!(plan[4].program, "install_name_tool");
    assert_eq!(plan[4].args, vec!["-id", "@rpath/libdemo.dylib", "target/universal-macos/release/libdemo.dylib"]);
}

#[test]
fn static_single_triple_target_is_built_by_one_command() {
    let t = variant(ApplePlatform::IOS, false);
    let plan = t.commands("target", "demo", Mode::Debug, LibType::Static, &plain_features());
    assert_eq!(plan.len(), 1);
    assert_eq!(plan[0].args, vec!["build", "--target", "aarch64-apple-ios"]);
}

#[test]
fn merge_command_lines() {
    let t = variant(ApplePlatform::IOS, true);
    assert_eq!(
        t.lipo_command_lines("my target", "demo", Mode::Debug, LibType::Static),
        vec![
            "mkdir -p my target/universal-ios/debug",
            "lipo my target/x86_64-apple-ios/debug/libdemo.a my target/aarch64-apple-ios-sim/debug/libdemo.a -create -output my target/universal-ios/debug/libdemo.a",
        ]
    );
    assert!(variant(ApplePlatform::IOS, false).lipo_command_lines("t", "demo", Mode::Debug, LibType::Static).is_empty());
    assert_eq!(
        t.rpath_install_id_command_lines("t", "demo", Mode::Release, LibType::Dynamic),
        vec!["install_name_tool -id @rpath/libdemo.dylib t/universal-ios/release/libdemo.dylib"]
    );
    assert!(t.rpath_install_id_command_lines("t", "demo", Mode::Release, LibType::Static).is_empty());
}

#[test]
fn parse_lines_reads_each_line() {
    let plan = parse_lines(&vec!["mkdir -p a".to_string(), "lipo x y".to_string()]);
    assert_eq!(plan.len(), 2);
    assert_eq!((plan[0].program.as_str(), plan[1].program.as_str()), ("mkdir", "lipo"));
    assert_eq!(plan[1].args, vec!["x", "y"]);
    assert!(parse_lines(&vec![]).is_empty());
}
