//! Apple platforms and the build targets they expand to: the target
//! triples of each, the commands that build them, and the commands that
//! merge several architectures into one universal binary.

use vstd::prelude::*;
use vstd::string::*;
use crate::common::cargo::{build_flags, with_build_flags};
use crate::common::command::{
    lemma_push_invocation,
    parse_lines,
    parsed,
    plan_view,
    Invocation,
    InvocationView,
};
use crate::common::models::{
    lib_type_extension,
    mode_name,
    FeatureOptions,
    FeatureOptionsView,
    LibType,
    Mode,
};
use crate::common::text::{joined, lemma_push_string};

verus! {

#[derive(Debug, Clone, PartialEq, Eq)]
pub struct AppleTarget {
    pub universal_name: Option<&'static str>,
    pub architectures: Vec<&'static str>,
    pub display_name: &'static str,
    pub platform: ApplePlatformTarget,
}

#[derive(Clone, Copy, Debug, PartialEq, Eq, Structural)]
pub enum ApplePlatform {
    IOS,
    MacOS,
    TvOS,
    WatchOS,
    VisionOS,
}

#[derive(Clone, Copy, Debug, PartialEq, Eq, Structural)]
pub struct ApplePlatformTarget {
    pub platform: ApplePlatform,
    pub is_simulator: bool,
}

pub ghost struct AppleTargetView {
    pub universal_name: Option<Seq<char>>,
    pub architectures: Seq<Seq<char>>,
    pub display_name: Seq<char>,
    pub platform: ApplePlatformTarget,
}

impl View for AppleTarget {
    type V = AppleTargetView;

    open spec fn view(&self) -> AppleTargetView {
        AppleTargetView {
            universal_name: match self.universal_name {
                Some(name) => Some(name@),
                None => None,
            },
            architectures: self.architectures.deep_view(),
            display_name: self.display_name@,
            platform: self.platform,
        }
    }
}

/// The views of a list of targets, in order.
pub open spec fn targets_view(targets: Seq<AppleTarget>) -> Seq<AppleTargetView> {
    targets.map_values(|t: AppleTarget| t@)
}

/// The variants a platform is built for: the device, and the simulator too
/// for every platform but macOS.
pub open spec fn platform_targets(platform: ApplePlatform) -> Seq<ApplePlatformTarget> {
    match platform {
        ApplePlatform::MacOS => seq![ApplePlatformTarget { platform, is_simulator: false }],
        _ => seq![
            ApplePlatformTarget { platform, is_simulator: false },
            ApplePlatformTarget { platform, is_simulator: true },
        ],
    }
}

/// Whether Rust supports a platform only at its third tier, so that the
/// standard library has to be built along with the crate.
pub open spec fn is_tier_3(platform: ApplePlatform) -> bool {
    match platform {
        ApplePlatform::IOS | ApplePlatform::MacOS => false,
        ApplePlatform::TvOS | ApplePlatform::WatchOS | ApplePlatform::VisionOS => true,
    }
}

/// Whether support for a platform is still experimental.
pub open spec fn is_experimental(platform: ApplePlatform) -> bool {
    match platform {
        ApplePlatform::MacOS | ApplePlatform::IOS => false,
        ApplePlatform::TvOS | ApplePlatform::WatchOS | ApplePlatform::VisionOS => true,
    }
}

/// The plain name of a platform.
pub open spec fn platform_name(platform: ApplePlatform) -> Seq<char> {
    match platform {
        ApplePlatform::MacOS => "macOS"@,
        ApplePlatform::IOS => "iOS"@,
        ApplePlatform::TvOS => "tvOS"@,
        ApplePlatform::WatchOS => "watchOS"@,
        ApplePlatform::VisionOS => "visionOS"@,
    }
}

/// The name a platform is offered under: its plain name, marked where
/// support is experimental.
pub open spec fn platform_display_name(platform: ApplePlatform) -> Seq<char> {
    platform_name(platform) + (if is_experimental(platform) {
        " (Experimental)"@
    } else {
        ""@
    })
}

/// All platforms, in the order in which they are offered.
pub open spec fn all_platforms() -> Seq<ApplePlatform> {
    seq![
        ApplePlatform::MacOS,
        ApplePlatform::IOS,
        ApplePlatform::TvOS,
        ApplePlatform::WatchOS,
        ApplePlatform::VisionOS,
    ]
}

/// The build target of each platform variant: its triples in merge order,
/// its display name, and the name of its universal binary where several
/// triples are merged into one.
pub open spec fn apple_target_of(variant: ApplePlatformTarget) -> AppleTargetView {
    match (variant.platform, variant.is_simulator) {
        (ApplePlatform::IOS, false) => AppleTargetView {
            universal_name: None,
            architectures: seq!["aarch64-apple-ios"@],
            display_name: "iOS"@,
            platform: variant,
        },
        (ApplePlatform::IOS, true) => AppleTargetView {
            universal_name: Some("universal-ios"@),
            architectures: seq!["x86_64-apple-ios"@, "aarch64-apple-ios-sim"@],
            display_name: "iOS Simulator"@,
            platform: variant,
        },
        (ApplePlatform::MacOS, _) => AppleTargetView {
            universal_name: Some("universal-macos"@),
            architectures: seq!["x86_64-apple-darwin"@, "aarch64-apple-darwin"@],
            display_name: "macOS"@,
            platform: variant,
        },
        (ApplePlatform::TvOS, false) => AppleTargetView {
            universal_name: None,
            architectures: seq!["aarch64-apple-tvos"@],
            display_name: "tvOS"@,
            platform: variant,
        },
        (ApplePlatform::TvOS, true) => AppleTargetView {
            universal_name: Some("universal-tvos-simulator"@),
            architectures: seq!["aarch64-apple-tvos-sim"@, "x86_64-apple-tvos"@],
            display_name: "tvOS Simulator"@,
            platform: variant,
        },
        (ApplePlatform::WatchOS, false) => AppleTargetView {
            universal_name: Some("universal-watchos"@),
            architectures: seq![
                "aarch64-apple-watchos"@,
                "arm64_32-apple-watchos"@,
                "armv7k-apple-watchos"@,
            ],
            display_name: "watchOS"@,
            platform: variant,
        },
        (ApplePlatform::WatchOS, true) => AppleTargetView {
            universal_name: Some("universal-watchos-sim"@),
            architectures: seq!["aarch64-apple-watchos-sim"@, "x86_64-apple-watchos-sim"@],
            display_name: "watchOS Simulator"@,
            platform: variant,
        },
        (ApplePlatform::VisionOS, false) => AppleTargetView {
            universal_name: None,
            architectures: seq!["aarch64-apple-visionos"@],
            display_name: "visionOS"@,
            platform: variant,
        },
        (ApplePlatform::VisionOS, true) => AppleTargetView {
            universal_name: None,
            architectures: seq!["aarch64-apple-visionos-sim"@],
            display_name: "visionOS Simulator"@,
            platform: variant,
        },
    }
}

/// The command line that a build of a platform starts from. Third-tier
/// platforms need the nightly toolchain and a build of the standard library.
pub open spec fn build_line(platform: ApplePlatform) -> Seq<char> {
    if is_tier_3(platform) {
        "cargo +nightly build -Z build-std"@
    } else {
        "cargo build"@
    }
}

/// The file name of the library built from a crate.
pub open spec fn library_file_name_spec(lib_name: Seq<char>, lib_type: LibType) -> Seq<char> {
    "lib"@ + lib_name + "."@ + lib_type_extension(lib_type)
}

/// Where cargo puts the library that it builds for one triple.
pub open spec fn artifact_path(
    target_dir: Seq<char>,
    triple: Seq<char>,
    mode: Mode,
    file_name: Seq<char>,
) -> Seq<char> {
    target_dir + "/"@ + triple + "/"@ + mode_name(mode) + "/"@ + file_name
}

impl AppleTargetView {
    /// A target can be located on disk if it has a universal name or at least
    /// one triple.
    pub open spec fn locatable(self) -> bool {
        self.universal_name is None ==> self.architectures.len() > 0
    }

    /// The directory that holds the finished library of the target: that of
    /// the universal binary where there is one, else that of the first triple.
    pub open spec fn library_directory(self, target_dir: Seq<char>, mode: Mode) -> Seq<char> {
        match self.universal_name {
            Some(name) => target_dir + "/"@ + name + "/"@ + mode_name(mode),
            None => target_dir + "/"@ + self.architectures[0] + "/"@ + mode_name(mode),
        }
    }

    /// The path of the finished library of the target.
    pub open spec fn library_path(
        self,
        target_dir: Seq<char>,
        lib_name: Seq<char>,
        mode: Mode,
        lib_type: LibType,
    ) -> Seq<char> {
        self.library_directory(target_dir, mode) + "/"@ + library_file_name_spec(
            lib_name,
            lib_type,
        )
    }

    /// One build per triple, in the order of the triples.
    pub open spec fn build_plan(self, mode: Mode, features: FeatureOptionsView) -> Seq<
        InvocationView,
    > {
        Seq::new(
            self.architectures.len(),
            |i: int|
                parsed(build_line(self.platform.platform)).args(
                    build_flags(self.architectures[i], mode, features),
                ),
        )
    }

    /// The per-triple libraries that a merge reads, in the order of the
    /// triples.
    pub open spec fn component_paths(
        self,
        target_dir: Seq<char>,
        lib_name: Seq<char>,
        mode: Mode,
        lib_type: LibType,
    ) -> Seq<Seq<char>> {
        Seq::new(
            self.architectures.len(),
            |i: int|
                artifact_path(
                    target_dir,
                    self.architectures[i],
                    mode,
                    library_file_name_spec(lib_name, lib_type),
                ),
        )
    }

    /// The command line that creates the directory of the universal binary.
    pub open spec fn make_dir_line(self, target_dir: Seq<char>, mode: Mode) -> Seq<char> {
        "mkdir -p "@ + self.library_directory(target_dir, mode)
    }

    /// The command line that merges the per-triple libraries, in the order of
    /// the triples, into the universal binary.
    pub open spec fn merge_line(
        self,
        target_dir: Seq<char>,
        lib_name: Seq<char>,
        mode: Mode,
        lib_type: LibType,
    ) -> Seq<char> {
        "lipo "@ + joined(self.component_paths(target_dir, lib_name, mode, lib_type), " "@)
            + " -create -output "@ + self.library_path(target_dir, lib_name, mode, lib_type)
    }

    /// The command lines of the merge: none for a target of at most one
    /// triple; else the creation of the output directory followed by the
    /// merge.
    pub open spec fn merge_lines(
        self,
        target_dir: Seq<char>,
        lib_name: Seq<char>,
        mode: Mode,
        lib_type: LibType,
    ) -> Seq<Seq<char>> {
        if self.architectures.len() <= 1 {
            Seq::empty()
        } else {
            seq![
                self.make_dir_line(target_dir, mode),
                self.merge_line(target_dir, lib_name, mode, lib_type),
            ]
        }
    }

    /// Nothing for a target of at most one triple; else the creation of the
    /// output directory followed by the merge.
    pub open spec fn merge_plan(
        self,
        target_dir: Seq<char>,
        lib_name: Seq<char>,
        mode: Mode,
        lib_type: LibType,
    ) -> Seq<InvocationView> {
        if self.architectures.len() <= 1 {
            Seq::empty()
        } else {
            seq![
                parsed(self.make_dir_line(target_dir, mode)),
                parsed(self.merge_line(target_dir, lib_name, mode, lib_type)),
            ]
        }
    }

    /// The command line that sets the install name of a dynamic library.
    pub open spec fn install_id_line(
        self,
        target_dir: Seq<char>,
        lib_name: Seq<char>,
        mode: Mode,
        lib_type: LibType,
    ) -> Seq<char> {
        "install_name_tool -id @rpath/"@ + library_file_name_spec(lib_name, lib_type) + " "@
            + self.library_path(target_dir, lib_name, mode, lib_type)
    }

    /// The command lines of the install-name fix: one for a dynamic
    /// library, none for a static one.
    pub open spec fn install_id_lines(
        self,
        target_dir: Seq<char>,
        lib_name: Seq<char>,
        mode: Mode,
        lib_type: LibType,
    ) -> Seq<Seq<char>> {
        match lib_type {
            LibType::Dynamic => seq![
                self.install_id_line(target_dir, lib_name, mode, lib_type),
            ],
            LibType::Static => Seq::empty(),
        }
    }

    /// The install-name fix of a dynamic library; nothing for a static one.
    pub open spec fn install_id_plan(
        self,
        target_dir: Seq<char>,
        lib_name: Seq<char>,
        mode: Mode,
        lib_type: LibType,
    ) -> Seq<InvocationView> {
        match lib_type {
            LibType::Dynamic => seq![
                parsed(self.install_id_line(target_dir, lib_name, mode, lib_type)),
            ],
            LibType::Static => Seq::empty(),
        }
    }

    /// Everything that realises the target: the builds, then the merge, then
    /// the install-name fix.
    pub open spec fn command_plan(
        self,
        target_dir: Seq<char>,
        lib_name: Seq<char>,
        mode: Mode,
        lib_type: LibType,
        features: FeatureOptionsView,
    ) -> Seq<InvocationView> {
        self.build_plan(mode, features) + self.merge_plan(target_dir, lib_name, mode, lib_type)
            + self.install_id_plan(target_dir, lib_name, mode, lib_type)
    }
}

impl ApplePlatform {
    /// The variants a platform is built for.
    pub fn into_apple_platform_target(&self) -> (r: Vec<ApplePlatformTarget>)
        ensures
            r@ == platform_targets(*self),
    {
        let r = match self {
            ApplePlatform::MacOS => vec![ApplePlatformTarget { platform: *self, is_simulator: false }],
            _ => vec![
                ApplePlatformTarget { platform: *self, is_simulator: false },
                ApplePlatformTarget { platform: *self, is_simulator: true },
            ],
        };
        assert(r@ =~= platform_targets(*self));
        r
    }

    pub fn display_name(&self) -> (r: String)
        ensures
            r@ == platform_display_name(*self),
    {
        let name = match self {
            ApplePlatform::MacOS => "macOS",
            ApplePlatform::IOS => "iOS",
            ApplePlatform::TvOS => "tvOS",
            ApplePlatform::WatchOS => "watchOS",
            ApplePlatform::VisionOS => "visionOS",
        };
        String::from_str(name).concat(
            if self.is_experimental() {
                " (Experimental)"
            } else {
                ""
            },
        )
    }

    pub fn is_experimental(&self) -> (r: bool)
        ensures
            r == is_experimental(*self),
    {
        match self {
            Self::MacOS | Self::IOS => false,
            Self::TvOS | Self::WatchOS | Self::VisionOS => true,
        }
    }

    pub fn all() -> (r: [Self; 5])
        ensures
            r@ == all_platforms(),
    {
        let r = [Self::MacOS, Self::IOS, Self::TvOS, Self::WatchOS, Self::VisionOS];
        assert(r@ =~= all_platforms());
        r
    }

    pub fn is_tier_3(&self) -> (r: bool)
        ensures
            r == is_tier_3(*self),
    {
        match self {
            ApplePlatform::IOS => false,
            ApplePlatform::MacOS => false,
            ApplePlatform::TvOS => true,
            ApplePlatform::WatchOS => true,
            ApplePlatform::VisionOS => true,
        }
    }
}

impl ApplePlatformTarget {
    /// The build target of this platform variant.
    pub fn target(&self) -> (t: AppleTarget)
        ensures
            t@ == apple_target_of(*self),
    {
        let t = match (self.platform, self.is_simulator) {
            (ApplePlatform::IOS, false) => AppleTarget {
                universal_name: None,
                architectures: vec!["aarch64-apple-ios"],
                display_name: "iOS",
                platform: *self,
            },
            (ApplePlatform::IOS, true) => AppleTarget {
                universal_name: Some("universal-ios"),
                architectures: vec!["x86_64-apple-ios", "aarch64-apple-ios-sim"],
                display_name: "iOS Simulator",
                platform: *self,
            },
            (ApplePlatform::MacOS, _) => AppleTarget {
                universal_name: Some("universal-macos"),
                architectures: vec!["x86_64-apple-darwin", "aarch64-apple-darwin"],
                display_name: "macOS",
                platform: *self,
            },
            (ApplePlatform::TvOS, false) => AppleTarget {
                universal_name: None,
                architectures: vec!["aarch64-apple-tvos"],
                display_name: "tvOS",
                platform: *self,
            },
            (ApplePlatform::TvOS, true) => AppleTarget {
                universal_name: Some("universal-tvos-simulator"),
                architectures: vec!["aarch64-apple-tvos-sim", "x86_64-apple-tvos"],
                display_name: "tvOS Simulator",
                platform: *self,
            },
            (ApplePlatform::WatchOS, false) => AppleTarget {
                universal_name: Some("universal-watchos"),
                architectures: vec![
                    "aarch64-apple-watchos",
                    "arm64_32-apple-watchos",
                    "armv7k-apple-watchos",
                ],
                display_name: "watchOS",
                platform: *self,
            },
            (ApplePlatform::WatchOS, true) => AppleTarget {
                universal_name: Some("universal-watchos-sim"),
                architectures: vec!["aarch64-apple-watchos-sim", "x86_64-apple-watchos-sim"],
                display_name: "watchOS Simulator",
                platform: *self,
            },
            (ApplePlatform::VisionOS, false) => AppleTarget {
                universal_name: None,
                architectures: vec!["aarch64-apple-visionos"],
                display_name: "visionOS",
                platform: *self,
            },
            (ApplePlatform::VisionOS, true) => AppleTarget {
                universal_name: None,
                architectures: vec!["aarch64-apple-visionos-sim"],
                display_name: "visionOS Simulator",
                platform: *self,
            },
        };
        assert(t@.architectures =~= apple_target_of(*self).architectures);
        t
    }
}

pub fn library_file_name(lib_name: &str, lib_type: LibType) -> (r: String)
    ensures
        r@ == library_file_name_spec(lib_name@, lib_type),
{
    String::from_str("lib").concat(lib_name).concat(".").concat(lib_type.file_extension())
}

impl AppleTarget {
    /// One `cargo build` per triple of the target, in the order of the
    /// triples.
    pub fn cargo_build_commands(&self, mode: Mode, features: &FeatureOptions) -> (plan: Vec<
        Invocation,
    >)
        ensures
            plan_view(plan@) == self@.build_plan(mode, features@),
    {
        let mut plan: Vec<Invocation> = Vec::new();
        let ghost goal = self@.build_plan(mode, features@);
        for i in 0..self.architectures.len()
            invariant
                goal == self@.build_plan(mode, features@),
                plan_view(plan@) == goal.take(i as int),
        {
            let base = if self.platform.platform.is_tier_3() {
                Invocation::parse("cargo +nightly build -Z build-std")
            } else {
                Invocation::parse("cargo build")
            };
            let cmd = with_build_flags(base, self.architectures[i], mode, features);
            proof {
                assert(self@.architectures[i as int] == self.architectures@[i as int]@);
                lemma_push_invocation(plan@, cmd);
            }
            plan.push(cmd);
            assert(plan_view(plan@) =~= goal.take(i + 1));
        }
        assert(goal.take(self.architectures.len() as int) =~= goal);
        plan
    }

    /// The command lines that merge the per-triple libraries into one
    /// universal binary. A target of a single triple needs none.
    pub fn lipo_command_lines(
        &self,
        target_dir: &str,
        lib_name: &str,
        mode: Mode,
        lib_type: LibType,
    ) -> (lines: Vec<String>)
        ensures
            lines.deep_view() == self@.merge_lines(target_dir@, lib_name@, mode, lib_type),
    {
        if self.architectures.len() <= 1 {
            let lines: Vec<String> = Vec::new();
            assert(lines.deep_view() =~= Seq::empty());
            return lines;
        }
        let path = self.library_directory(target_dir, mode);
        let target_name = library_file_name(lib_name, lib_type);
        let ghost goal = self@.component_paths(target_dir@, lib_name@, mode, lib_type);
        let mut component_paths: Vec<String> = Vec::new();
        for i in 0..self.architectures.len()
            invariant
                goal == self@.component_paths(target_dir@, lib_name@, mode, lib_type),
                target_name@ == library_file_name_spec(lib_name@, lib_type),
                component_paths.deep_view() == goal.take(i as int),
        {
            let component = String::from_str(target_dir).concat("/").concat(
                self.architectures[i],
            ).concat("/").concat(mode.as_str()).concat("/").concat(target_name.as_str());
            let ghost before = component_paths;
            proof {
                assert(self@.architectures[i as int] == self.architectures@[i as int]@);
            }
            component_paths.push(component);
            proof {
                lemma_push_string(before, component_paths, component);
            }
            assert(component_paths.deep_view() =~= goal.take(i + 1));
        }
        assert(goal.take(self.architectures.len() as int) =~= goal);
        let args = crate::common::text::join(&component_paths, " ");
        let target_path = self.library_path(target_dir, lib_name, mode, lib_type);
        let make_dir = String::from_str("mkdir -p ").concat(path.as_str());
        let lipo = String::from_str("lipo ").concat(args.as_str()).concat(
            " -create -output ",
        ).concat(target_path.as_str());
        let lines = vec![make_dir, lipo];
        assert(lines.deep_view() =~= self@.merge_lines(target_dir@, lib_name@, mode, lib_type));
        lines
    }

    /// The commands that merge the per-triple libraries into one universal
    /// binary. A target of a single triple needs none.
    pub fn lipo_commands(&self, target_dir: &str, lib_name: &str, mode: Mode, lib_type: LibType) -> (plan:
        Vec<Invocation>)
        ensures
            plan_view(plan@) == self@.merge_plan(target_dir@, lib_name@, mode, lib_type),
    {
        let lines = self.lipo_command_lines(target_dir, lib_name, mode, lib_type);
        let plan = parse_lines(&lines);
        assert(plan_view(plan@) =~= self@.merge_plan(target_dir@, lib_name@, mode, lib_type));
        plan
    }

    /// The command line that sets the install name of the finished library
    /// to a path relative to the run path. Only a dynamic library carries
    /// one.
    pub fn rpath_install_id_command_lines(
        &self,
        target_dir: &str,
        lib_name: &str,
        mode: Mode,
        lib_type: LibType,
    ) -> (lines: Vec<String>)
        requires
            lib_type == LibType::Dynamic ==> self@.locatable(),
        ensures
            lines.deep_view() == self@.install_id_lines(target_dir@, lib_name@, mode, lib_type),
    {
        match lib_type {
            LibType::Dynamic => {
                let line = String::from_str("install_name_tool -id @rpath/").concat(
                    library_file_name(lib_name, lib_type).as_str(),
                ).concat(" ").concat(
                    self.library_path(target_dir, lib_name, mode, lib_type).as_str(),
                );
                let lines = vec![line];
                assert(lines.deep_view() =~= self@.install_id_lines(
                    target_dir@,
                    lib_name@,
                    mode,
                    lib_type,
                ));
                lines
            },
            LibType::Static => {
                let lines: Vec<String> = Vec::new();
                assert(lines.deep_view() =~= Seq::empty());
                lines
            },
        }
    }

    /// The command that sets the install name of the finished library to a
    /// path relative to the run path. Only a dynamic library carries one.
    pub fn rpath_install_id_commands(
        &self,
        target_dir: &str,
        lib_name: &str,
        mode: Mode,
        lib_type: LibType,
    ) -> (plan: Vec<Invocation>)
        requires
            lib_type == LibType::Dynamic ==> self@.locatable(),
        ensures
            plan_view(plan@) == self@.install_id_plan(target_dir@, lib_name@, mode, lib_type),
    {
        let lines = self.rpath_install_id_command_lines(target_dir, lib_name, mode, lib_type);
        let plan = parse_lines(&lines);
        assert(plan_view(plan@) =~= self@.install_id_plan(target_dir@, lib_name@, mode, lib_type));
        plan
    }

    /// All commands that build this target, to be run in the order given:
    /// the builds of the triples, the merge into a universal binary where the
    /// target has several triples, and the install-name fix of a dynamic
    /// library.
    pub fn commands(
        &self,
        target_dir: &str,
        lib_name: &str,
        mode: Mode,
        lib_type: LibType,
        features: &FeatureOptions,
    ) -> (plan: Vec<Invocation>)
        requires
            lib_type == LibType::Dynamic ==> self@.locatable(),
        ensures
            plan_view(plan@) == self@.command_plan(
                target_dir@,
                lib_name@,
                mode,
                lib_type,
                features@,
            ),
    {
        let mut plan = self.cargo_build_commands(mode, features);
        let mut merge = self.lipo_commands(target_dir, lib_name, mode, lib_type);
        let mut fix = self.rpath_install_id_commands(target_dir, lib_name, mode, lib_type);
        let ghost built = plan@;
        let ghost merged = merge@;
        let ghost fixed = fix@;
        plan.append(&mut merge);
        plan.append(&mut fix);
        assert(plan_view(plan@) =~= plan_view(built) + plan_view(merged) + plan_view(fixed));
        plan
    }

    /// The names of all target triples of this target, as Rust names them.
    pub fn architectures(&self) -> (r: &[&'static str])
        ensures
            r@ == self.architectures@,
    {
        self.architectures.as_slice()
    }

    pub fn display_name(&self) -> (r: &'static str)
        ensures
            r == self.display_name,
    {
        self.display_name
    }

    pub fn platform(&self) -> (r: ApplePlatformTarget)
        ensures
            r == self.platform,
    {
        self.platform
    }

    pub fn library_directory(&self, target_dir: &str, mode: Mode) -> (r: String)
        requires
            self@.locatable(),
        ensures
            r@ == self@.library_directory(target_dir@, mode),
    {
        match self.universal_name {
            Some(universal_name) => String::from_str(target_dir).concat("/").concat(
                universal_name,
            ).concat("/").concat(mode.as_str()),
            None => String::from_str(target_dir).concat("/").concat(self.architectures[0]).concat(
                "/",
            ).concat(mode.as_str()),
        }
    }

    pub fn library_path(&self, target_dir: &str, lib_name: &str, mode: Mode, lib_type: LibType) -> (r:
        String)
        requires
            self@.locatable(),
        ensures
            r@ == self@.library_path(target_dir@, lib_name@, mode, lib_type),
    {
        self.library_directory(target_dir, mode).concat("/").concat(
            library_file_name(lib_name, lib_type).as_str(),
        )
    }
}

/// A target carries a universal name exactly when it spans more than one
/// triple, and every target has at least one triple.
pub proof fn lemma_universal_iff_several_triples(variant: ApplePlatformTarget)
    ensures
        apple_target_of(variant).architectures.len() >= 1,
        apple_target_of(variant).universal_name is Some <==> apple_target_of(
            variant,
        ).architectures.len() > 1,
        apple_target_of(variant).locatable(),
        apple_target_of(variant).platform == variant,
{
}

/// A platform expands to its device variant first, and to a simulator
/// variant behind it unless the platform is macOS.
pub proof fn lemma_platform_variants(platform: ApplePlatform)
    ensures
        platform_targets(platform).len() == if platform == ApplePlatform::MacOS {
            1int
        } else {
            2int
        },
        forall|i: int|
            0 <= i < platform_targets(platform).len() ==> (#[trigger] platform_targets(
                platform,
            )[i]).platform == platform,
        !platform_targets(platform)[0].is_simulator,
        platform != ApplePlatform::MacOS ==> platform_targets(platform)[1].is_simulator,
{
}

/// A build plan holds exactly one invocation per triple: the invocation at
/// each position is the base command followed by the flags for the triple at
/// that position, which name the triple and carry the release flag exactly
/// in release mode.
pub proof fn lemma_one_build_per_triple(
    target: AppleTargetView,
    mode: Mode,
    features: FeatureOptionsView,
)
    ensures
        target.build_plan(mode, features).len() == target.architectures.len(),
        forall|i: int|
            #![trigger target.build_plan(mode, features)[i]]
            0 <= i < target.architectures.len() ==> {
                let built = target.build_plan(mode, features)[i];
                let base = parsed(build_line(target.platform.platform));
                let flags = build_flags(target.architectures[i], mode, features);
                &&& built.program == base.program
                &&& built.envs == base.envs
                &&& built.args == base.args + flags
                &&& flags[0] == "--target"@
                &&& flags[1] == target.architectures[i]
                &&& (crate::common::cargo::has_release_flag(flags) <==> mode == Mode::Release)
            },
{
    assert forall|i: int|
        #![trigger target.architectures[i]]
        0 <= i < target.architectures.len() implies {
        let flags = build_flags(target.architectures[i], mode, features);
        &&& flags[0] == "--target"@
        &&& flags[1] == target.architectures[i]
        &&& (crate::common::cargo::has_release_flag(flags) <==> mode == Mode::Release)
    } by {
        crate::common::cargo::lemma_release_flag_iff_release(target.architectures[i], mode, features);
    }
}

/// A target of a single triple is merged by no command. A target of several
/// triples is merged by two: the first creates the output directory, the
/// second reads the library of every triple, in the order of the triples,
/// and writes the universal binary into that directory.
pub proof fn lemma_merge_follows_triples(
    target: AppleTargetView,
    target_dir: Seq<char>,
    lib_name: Seq<char>,
    mode: Mode,
    lib_type: LibType,
)
    ensures
        target.architectures.len() <= 1 ==> target.merge_plan(
            target_dir,
            lib_name,
            mode,
            lib_type,
        ).len() == 0,
        target.architectures.len() > 1 ==> {
            let plan = target.merge_plan(target_dir, lib_name, mode, lib_type);
            let inputs = target.component_paths(target_dir, lib_name, mode, lib_type);
            &&& plan.len() == 2
            &&& plan[0] == parsed("mkdir -p "@ + target.library_directory(target_dir, mode))
            &&& plan[1] == parsed(
                "lipo "@ + joined(inputs, " "@) + " -create -output "@ + target.library_path(
                    target_dir,
                    lib_name,
                    mode,
                    lib_type,
                ),
            )
            &&& inputs.len() == target.architectures.len()
            &&& forall|i: int|
                0 <= i < inputs.len() ==> #[trigger] inputs[i] == artifact_path(
                    target_dir,
                    target.architectures[i],
                    mode,
                    library_file_name_spec(lib_name, lib_type),
                )
        },
{
}

} // verus!
