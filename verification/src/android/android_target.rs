//! Android architectures and their build targets: the triple of each, the
//! build commands with the cross-compilation environment they are run in,
//! and the steps that prepare the NDK toolchain before a build.

use vstd::prelude::*;
use vstd::string::*;
use crate::common::cargo::{build_flags, with_build_flags};
use crate::common::command::{
    lemma_push_invocation,
    parsed,
    plan_view,
    Invocation,
    InvocationView,
};
use crate::common::environment::{lookup, Environment};
use crate::common::models::{
    lib_type_extension_android,
    mode_name,
    FeatureOptions,
    FeatureOptionsView,
    LibType,
    Mode,
};
use crate::common::text::{
    decimal,
    decimal_string,
    replace_char,
    replaced,
    starts_with,
    starts_with_spec,
};

verus! {

#[derive(Debug, Clone, PartialEq, Eq)]
pub struct AndroidTarget {
    pub architectures: Vec<&'static str>,
    pub display_name: &'static str,
    pub ndk_arch: &'static str,
    pub api_level: u32,
}

#[allow(non_camel_case_types)]
#[derive(Clone, Copy, Debug, PartialEq, Eq, Structural)]
pub enum AndroidArch {
    ARM64V8A,
    ARMV7A,
    X86,
    X86_64,
}

/// The operating system that the build runs on. It decides the directory
/// of the prebuilt NDK tools, the path separators and the form of the
/// compiler wrappers.
#[derive(Clone, Copy, Debug, PartialEq, Eq, Structural)]
pub enum HostOs {
    Darwin,
    Windows,
    Linux,
}

pub ghost struct AndroidTargetView {
    pub architectures: Seq<Seq<char>>,
    pub display_name: Seq<char>,
    pub ndk_arch: Seq<char>,
    pub api_level: u32,
}

impl View for AndroidTarget {
    type V = AndroidTargetView;

    open spec fn view(&self) -> AndroidTargetView {
        AndroidTargetView {
            architectures: self.architectures.deep_view(),
            display_name: self.display_name@,
            ndk_arch: self.ndk_arch@,
            api_level: self.api_level,
        }
    }
}

/// One step of preparing the toolchain. The steps of a preparation are
/// carried out in the order in which they are listed.
#[derive(Debug, Clone, PartialEq, Eq)]
pub enum SetupStep {
    /// Create a directory and its missing parents.
    CreateDir { path: String },
    /// Write a file, replacing what was there.
    WriteFile { path: String, content: String },
    /// Give a file the permissions `rwxr-xr-x`.
    MakeExecutable { path: String },
    /// Look whether the path exists and go on as `require_outcome` says.
    RequireFile { path: String },
    /// Set an environment variable for all later builds.
    SetEnv { name: String, value: String },
}

pub ghost enum SetupStepView {
    CreateDir { path: Seq<char> },
    WriteFile { path: Seq<char>, content: Seq<char> },
    MakeExecutable { path: Seq<char> },
    RequireFile { path: Seq<char> },
    SetEnv { name: Seq<char>, value: Seq<char> },
}

impl View for SetupStep {
    type V = SetupStepView;

    open spec fn view(&self) -> SetupStepView {
        match self {
            SetupStep::CreateDir { path } => SetupStepView::CreateDir { path: path@ },
            SetupStep::WriteFile { path, content } => SetupStepView::WriteFile {
                path: path@,
                content: content@,
            },
            SetupStep::MakeExecutable { path } => SetupStepView::MakeExecutable { path: path@ },
            SetupStep::RequireFile { path } => SetupStepView::RequireFile { path: path@ },
            SetupStep::SetEnv { name, value } => SetupStepView::SetEnv {
                name: name@,
                value: value@,
            },
        }
    }
}

/// The views of a list of steps, in order.
pub open spec fn steps_view(steps: Seq<SetupStep>) -> Seq<SetupStepView> {
    steps.map_values(|s: SetupStep| s@)
}

/// Pushing a step onto a list pushes its view onto the list's view.
pub proof fn lemma_push_step(steps: Seq<SetupStep>, s: SetupStep)
    ensures
        steps_view(steps.push(s)) == steps_view(steps).push(s@),
{
    assert(steps_view(steps.push(s)) =~= steps_view(steps).push(s@));
}

/// Why the toolchain could not be prepared.
#[derive(Debug, PartialEq, Eq)]
pub enum ToolchainError {
    /// The variable that locates the NDK is not set.
    NdkHomeNotSet,
    /// A tool that the NDK should hold is missing at the given path.
    ToolNotFound { path: String },
}

pub ghost enum ToolchainErrorView {
    NdkHomeNotSet,
    ToolNotFound { path: Seq<char> },
}

impl View for ToolchainError {
    type V = ToolchainErrorView;

    open spec fn view(&self) -> ToolchainErrorView {
        match self {
            ToolchainError::NdkHomeNotSet => ToolchainErrorView::NdkHomeNotSet,
            ToolchainError::ToolNotFound { path } => ToolchainErrorView::ToolNotFound {
                path: path@,
            },
        }
    }
}

impl ToolchainErrorView {
    /// The text shown for a toolchain error.
    pub open spec fn message(self) -> Seq<char> {
        match self {
            ToolchainErrorView::NdkHomeNotSet =>
                "Error: ANDROID_NDK_HOME environment variable is not set. Please install Android NDK and set ANDROID_NDK_HOME."@,
            ToolchainErrorView::ToolNotFound { path } => "Android NDK tool not found: "@ + path
                + ". Please check your ANDROID_NDK_HOME setting."@,
        }
    }
}

impl ToolchainError {

    /// The text shown to the user.
    pub fn message(&self) -> (r: String)
        ensures
            r@ == self@.message(),
    {
        match self {
            ToolchainError::NdkHomeNotSet => String::from_str(
                "Error: ANDROID_NDK_HOME environment variable is not set. Please install Android NDK and set ANDROID_NDK_HOME.",
            ),
            ToolchainError::ToolNotFound { path } => String::from_str(
                "Android NDK tool not found: ",
            ).concat(path.as_str()).concat(". Please check your ANDROID_NDK_HOME setting."),
        }
    }
}

/// What follows from looking for a tool that a preparation requires: the
/// preparation goes on where the tool exists, and stops with the missing
/// path where it does not.
pub fn require_outcome(path: &str, exists: bool) -> (r: Result<(), ToolchainError>)
    ensures
        exists <==> r is Ok,
        r matches Err(e) ==> e@ == (ToolchainErrorView::ToolNotFound { path: path@ }),
{
    if exists {
        Ok(())
    } else {
        Err(ToolchainError::ToolNotFound { path: String::from_str(path) })
    }
}

// ---------------------------------------------------------------------
// Architectures
// ---------------------------------------------------------------------
/// The name an architecture is offered under.
pub open spec fn arch_display_name(arch: AndroidArch) -> Seq<char> {
    match arch {
        AndroidArch::ARM64V8A => "ARM64-v8a"@,
        AndroidArch::ARMV7A => "ARMv7-a"@,
        AndroidArch::X86 => "x86"@,
        AndroidArch::X86_64 => "x86_64"@,
    }
}

/// All architectures, in the order in which they are offered.
pub open spec fn all_archs() -> Seq<AndroidArch> {
    seq![AndroidArch::ARM64V8A, AndroidArch::ARMV7A, AndroidArch::X86, AndroidArch::X86_64]
}

/// The build target of an architecture at an API level: its one triple, its
/// display name, and the name of its directory inside a package.
pub open spec fn android_target_of(arch: AndroidArch, api_level: u32) -> AndroidTargetView {
    match arch {
        AndroidArch::ARM64V8A => AndroidTargetView {
            architectures: seq!["aarch64-linux-android"@],
            display_name: "ARM64-v8a"@,
            ndk_arch: "arm64-v8a"@,
            api_level,
        },
        AndroidArch::ARMV7A => AndroidTargetView {
            architectures: seq!["armv7-linux-androideabi"@],
            display_name: "ARMv7-a"@,
            ndk_arch: "armeabi-v7a"@,
            api_level,
        },
        AndroidArch::X86 => AndroidTargetView {
            architectures: seq!["i686-linux-android"@],
            display_name: "x86"@,
            ndk_arch: "x86"@,
            api_level,
        },
        AndroidArch::X86_64 => AndroidTargetView {
            architectures: seq!["x86_64-linux-android"@],
            display_name: "x86_64"@,
            ndk_arch: "x86_64"@,
            api_level,
        },
    }
}

impl AndroidArch {
    pub fn display_name(&self) -> (r: String)
        ensures
            r@ == arch_display_name(*self),
    {
        String::from_str(
            match self {
                AndroidArch::ARM64V8A => "ARM64-v8a",
                AndroidArch::ARMV7A => "ARMv7-a",
                AndroidArch::X86 => "x86",
                AndroidArch::X86_64 => "x86_64",
            },
        )
    }

    pub fn all() -> (r: [Self; 4])
        ensures
            r@ == all_archs(),
    {
        let r = [Self::ARM64V8A, Self::ARMV7A, Self::X86, Self::X86_64];
        assert(r@ =~= all_archs());
        r
    }

    /// The build target of this architecture at an API level.
    pub fn target(&self, api_level: u32) -> (t: AndroidTarget)
        ensures
            t@ == android_target_of(*self, api_level),
    {
        let t = match self {
            AndroidArch::ARM64V8A => AndroidTarget {
                architectures: vec!["aarch64-linux-android"],
                display_name: "ARM64-v8a",
                ndk_arch: "arm64-v8a",
                api_level,
            },
            AndroidArch::ARMV7A => AndroidTarget {
                architectures: vec!["armv7-linux-androideabi"],
                display_name: "ARMv7-a",
                ndk_arch: "armeabi-v7a",
                api_level,
            },
            AndroidArch::X86 => AndroidTarget {
                architectures: vec!["i686-linux-android"],
                display_name: "x86",
                ndk_arch: "x86",
                api_level,
            },
            AndroidArch::X86_64 => AndroidTarget {
                architectures: vec!["x86_64-linux-android"],
                display_name: "x86_64",
                ndk_arch: "x86_64",
                api_level,
            },
        };
        assert(t@.architectures =~= android_target_of(*self, api_level).architectures);
        t
    }
}

// ---------------------------------------------------------------------
// Host conventions
// ---------------------------------------------------------------------
/// The name of a host in the directory of the prebuilt NDK tools.
pub open spec fn host_name(host: HostOs) -> Seq<char> {
    match host {
        HostOs::Darwin => "darwin"@,
        HostOs::Windows => "windows"@,
        HostOs::Linux => "linux"@,
    }
}

/// What separates the components of a path on a host.
pub open spec fn path_separator(host: HostOs) -> Seq<char> {
    match host {
        HostOs::Windows => "\\"@,
        _ => "/"@,
    }
}

/// What an executable's file name ends in on a host.
pub open spec fn exe_suffix(host: HostOs) -> Seq<char> {
    match host {
        HostOs::Windows => ".exe"@,
        _ => ""@,
    }
}

/// What separates the directories of the search path on a host.
pub open spec fn search_path_separator(host: HostOs) -> Seq<char> {
    match host {
        HostOs::Windows => ";"@,
        _ => ":"@,
    }
}

impl HostOs {
    pub fn name(&self) -> (r: &'static str)
        ensures
            r@ == host_name(*self),
    {
        match self {
            HostOs::Darwin => "darwin",
            HostOs::Windows => "windows",
            HostOs::Linux => "linux",
        }
    }

    pub fn path_separator(&self) -> (r: &'static str)
        ensures
            r@ == path_separator(*self),
    {
        match self {
            HostOs::Windows => "\\",
            _ => "/",
        }
    }

    pub fn exe_suffix(&self) -> (r: &'static str)
        ensures
            r@ == exe_suffix(*self),
    {
        match self {
            HostOs::Windows => ".exe",
            _ => "",
        }
    }

    pub fn search_path_separator(&self) -> (r: &'static str)
        ensures
            r@ == search_path_separator(*self),
    {
        match self {
            HostOs::Windows => ";",
            _ => ":",
        }
    }
}

// ---------------------------------------------------------------------
// Tool paths
// ---------------------------------------------------------------------
/// The directory of the prebuilt LLVM toolchain inside an NDK.
pub open spec fn toolchain_path_spec(ndk_home: Seq<char>, host: HostOs) -> Seq<char> {
    let sep = path_separator(host);
    ndk_home + sep + "toolchains"@ + sep + "llvm"@ + sep + "prebuilt"@ + sep + host_name(host)
        + "-x86_64"@
}

/// The archiver of a toolchain.
pub open spec fn ar_path_spec(toolchain: Seq<char>, host: HostOs) -> Seq<char> {
    let sep = path_separator(host);
    toolchain + sep + "bin"@ + sep + "llvm-ar"@ + exe_suffix(host)
}

/// The compiler of a toolchain for one triple at one API level.
pub open spec fn clang_path_spec(
    toolchain: Seq<char>,
    host: HostOs,
    triple: Seq<char>,
    api: u32,
) -> Seq<char> {
    let sep = path_separator(host);
    toolchain + sep + "bin"@ + sep + triple + decimal(api as nat) + "-clang"@ + exe_suffix(host)
}

/// A path with every backslash turned into a forward slash.
pub open spec fn forward_slashes(path: Seq<char>) -> Seq<char> {
    replaced(path, '\\', "/"@)
}

/// The cargo configuration that names the archiver and the linker of a
/// triple, with forward slashes on every host.
pub open spec fn cargo_config_spec(triple: Seq<char>, ar: Seq<char>, clang: Seq<char>) -> Seq<
    char,
> {
    "[target."@ + triple + "]\nar = \""@ + forward_slashes(ar) + "\"\nlinker = \""@
        + forward_slashes(clang) + "\"\n"@
}

/// A triple as it appears at the end of a variable name: every `-` turned
/// into `_`.
pub open spec fn env_suffix_spec(triple: Seq<char>) -> Seq<char> {
    replaced(triple, '-', "_"@)
}

pub fn toolchain_path(ndk_home: &str, host: HostOs) -> (r: String)
    ensures
        r@ == toolchain_path_spec(ndk_home@, host),
{
    let sep = host.path_separator();
    String::from_str(ndk_home).concat(sep).concat("toolchains").concat(sep).concat("llvm").concat(
        sep,
    ).concat("prebuilt").concat(sep).concat(host.name()).concat("-x86_64")
}

pub fn ar_path(toolchain: &str, host: HostOs) -> (r: String)
    ensures
        r@ == ar_path_spec(toolchain@, host),
{
    let sep = host.path_separator();
    String::from_str(toolchain).concat(sep).concat("bin").concat(sep).concat("llvm-ar").concat(
        host.exe_suffix(),
    )
}

pub fn clang_path(toolchain: &str, host: HostOs, triple: &str, api: u32) -> (r: String)
    ensures
        r@ == clang_path_spec(toolchain@, host, triple@, api),
{
    let sep = host.path_separator();
    String::from_str(toolchain).concat(sep).concat("bin").concat(sep).concat(triple).concat(
        decimal_string(api).as_str(),
    ).concat("-clang").concat(host.exe_suffix())
}

pub fn cargo_config(triple: &str, ar: &str, clang: &str) -> (r: String)
    ensures
        r@ == cargo_config_spec(triple@, ar@, clang@),
{
    let ar_config_path = replace_char(ar, '\\', "/");
    let clang_config_path = replace_char(clang, '\\', "/");
    String::from_str("[target.").concat(triple).concat("]\nar = \"").concat(
        ar_config_path.as_str(),
    ).concat("\"\nlinker = \"").concat(clang_config_path.as_str()).concat("\"\n")
}

/// The one place where a triple is turned into the end of a variable name.
pub fn env_suffix(triple: &str) -> (r: String)
    ensures
        r@ == env_suffix_spec(triple@),
{
    replace_char(triple, '-', "_")
}

// ---------------------------------------------------------------------
// Compiler and archiver wrappers
// ---------------------------------------------------------------------
/// The directory that holds the wrappers.
pub open spec fn wrapper_dir_spec(home: Seq<char>, host: HostOs) -> Seq<char> {
    home + path_separator(host) + "android-toolchain-bin"@
}

/// The path of the wrapper of a tool (`clang` or `ar`) for a triple, without
/// the suffix of executables.
pub open spec fn wrapper_stem_spec(
    wrapper_dir: Seq<char>,
    host: HostOs,
    triple: Seq<char>,
    tool: Seq<char>,
) -> Seq<char> {
    wrapper_dir + path_separator(host) + triple + "-linux-android"@ + tool
}

/// What a wrapper holds: a batch file on Windows, a shell script elsewhere.
/// Either hands all its arguments to the real tool.
pub open spec fn wrapper_content_spec(host: HostOs, real_tool: Seq<char>) -> Seq<char> {
    match host {
        HostOs::Windows => "@echo off\r\n\""@ + replaced(real_tool, '\\', "\\\\"@)
            + "\" %*\r\n"@,
        _ => "#!/bin/sh\nexec \""@ + real_tool + "\" \"$@\"\n"@,
    }
}

/// The steps that put the two wrappers of one triple in place.
pub open spec fn triple_wrapper_steps(
    toolchain: Seq<char>,
    wrapper_dir: Seq<char>,
    host: HostOs,
    triple: Seq<char>,
    api: u32,
) -> Seq<SetupStepView> {
    let clang = wrapper_stem_spec(wrapper_dir, host, triple, "clang"@) + exe_suffix(host);
    let ar = wrapper_stem_spec(wrapper_dir, host, triple, "ar"@) + exe_suffix(host);
    let write = seq![
        SetupStepView::WriteFile {
            path: clang,
            content: wrapper_content_spec(host, clang_path_spec(toolchain, host, triple, api)),
        },
        SetupStepView::WriteFile {
            path: ar,
            content: wrapper_content_spec(host, ar_path_spec(toolchain, host)),
        },
    ];
    match host {
        HostOs::Windows => write,
        _ => write + seq![
            SetupStepView::MakeExecutable { path: clang },
            SetupStepView::MakeExecutable { path: ar },
        ],
    }
}

/// The wrapper steps of all triples, in the order of the triples.
pub open spec fn wrapper_steps(
    toolchain: Seq<char>,
    wrapper_dir: Seq<char>,
    host: HostOs,
    triples: Seq<Seq<char>>,
    api: u32,
) -> Seq<SetupStepView>
    decreases triples.len(),
{
    if triples.len() == 0 {
        Seq::empty()
    } else {
        wrapper_steps(toolchain, wrapper_dir, host, triples.drop_last(), api)
            + triple_wrapper_steps(toolchain, wrapper_dir, host, triples.last(), api)
    }
}

/// The value of a variable, or a default where it is not set.
pub open spec fn lookup_or(
    env: Seq<(Seq<char>, Seq<char>)>,
    name: Seq<char>,
    default: Seq<char>,
) -> Seq<char> {
    match lookup(env, name) {
        Some(value) => value,
        None => default,
    }
}

/// A search path that begins with a directory: the path itself where the
/// directory already leads it, else the directory, the separator and the
/// path.
pub open spec fn search_path_with(dir: Seq<char>, sep: Seq<char>, old: Seq<char>) -> Seq<char> {
    if starts_with_spec(old, dir + sep) {
        old
    } else {
        dir + sep + old
    }
}

/// Puts a directory in front of a search path, unless it leads the path
/// already.
pub fn search_path(dir: &str, sep: &str, old: &str) -> (r: String)
    ensures
        r@ == search_path_with(dir@, sep@, old@),
{
    let front = String::from_str(dir).concat(sep);
    if starts_with(old, front.as_str()) {
        String::from_str(old)
    } else {
        front.concat(old)
    }
}

/// The variables that make later builds find the wrappers of a triple: the
/// search path with the wrapper directory in front, then the compiler, the
/// archiver and the compiler flags, each under its general name and under
/// the name that ends in the triple.
pub open spec fn wrapper_env_steps(
    env: Seq<(Seq<char>, Seq<char>)>,
    wrapper_dir: Seq<char>,
    host: HostOs,
    triple: Seq<char>,
    api: u32,
) -> Seq<SetupStepView> {
    let compiler = wrapper_stem_spec(wrapper_dir, host, triple, "clang"@);
    let archiver = wrapper_stem_spec(wrapper_dir, host, triple, "ar"@);
    let flags = "--target="@ + triple + decimal(api as nat);
    let suffix = env_suffix_spec(triple);
    seq![
        SetupStepView::SetEnv {
            name: "PATH"@,
            value: search_path_with(
                wrapper_dir,
                search_path_separator(host),
                lookup_or(env, "PATH"@, ""@),
            ),
        },
        SetupStepView::SetEnv { name: "CC"@, value: compiler },
        SetupStepView::SetEnv { name: "CC_"@ + suffix, value: compiler },
        SetupStepView::SetEnv { name: "TARGET_CC"@, value: compiler },
        SetupStepView::SetEnv { name: "AR"@, value: archiver },
        SetupStepView::SetEnv { name: "AR_"@ + suffix, value: archiver },
        SetupStepView::SetEnv { name: "TARGET_AR"@, value: archiver },
        SetupStepView::SetEnv { name: "CFLAGS_"@ + suffix, value: flags },
        SetupStepView::SetEnv { name: "TARGET_CFLAGS"@, value: flags },
    ]
}

/// The steps that make a build find a compiler and an archiver under the
/// names that lack the API level: the wrapper directory, the wrappers of
/// every triple, and the variables that point at those of the first triple.
pub open spec fn shim_steps(
    target: AndroidTargetView,
    env: Seq<(Seq<char>, Seq<char>)>,
    toolchain: Seq<char>,
    host: HostOs,
    api: u32,
) -> Seq<SetupStepView> {
    let wrapper_dir = wrapper_dir_spec(lookup_or(env, "HOME"@, "."@), host);
    seq![SetupStepView::CreateDir { path: wrapper_dir }] + wrapper_steps(
        toolchain,
        wrapper_dir,
        host,
        target.architectures,
        api,
    ) + wrapper_env_steps(env, wrapper_dir, host, target.architectures[0], api)
}

/// All steps that prepare the toolchain of a target inside the NDK at
/// `ndk_home`: the cargo configuration for the first triple, the check
/// that the archiver and the compiler exist, and the wrappers.
pub open spec fn setup_steps(
    target: AndroidTargetView,
    env: Seq<(Seq<char>, Seq<char>)>,
    ndk_home: Seq<char>,
    host: HostOs,
) -> Seq<SetupStepView> {
    let toolchain = toolchain_path_spec(ndk_home, host);
    let triple = target.architectures[0];
    let ar = ar_path_spec(toolchain, host);
    let clang = clang_path_spec(toolchain, host, triple, target.api_level);
    seq![
        SetupStepView::CreateDir { path: ".cargo"@ },
        SetupStepView::WriteFile {
            path: ".cargo/config.toml"@,
            content: cargo_config_spec(triple, ar, clang),
        },
        SetupStepView::RequireFile { path: ar },
        SetupStepView::RequireFile { path: clang },
    ] + shim_steps(target, env, toolchain, host, target.api_level)
}

/// The environment after the variables of a list of steps have been set,
/// in order.
pub open spec fn env_after(env: Seq<(Seq<char>, Seq<char>)>, steps: Seq<SetupStepView>) -> Seq<
    (Seq<char>, Seq<char>),
>
    decreases steps.len(),
{
    if steps.len() == 0 {
        env
    } else {
        let before = env_after(env, steps.drop_last());
        match steps.last() {
            SetupStepView::SetEnv { name, value } => before.push((name, value)),
            _ => before,
        }
    }
}

/// Appends one step to a list of steps.
fn push_step(steps: &mut Vec<SetupStep>, step: SetupStep)
    ensures
        steps_view(final(steps)@) == steps_view(old(steps)@).push(step@),
{
    proof {
        lemma_push_step(steps@, step);
    }
    steps.push(step);
}

fn set_env(name: String, value: &str) -> (r: SetupStep)
    ensures
        r@ == (SetupStepView::SetEnv { name: name@, value: value@ }),
{
    SetupStep::SetEnv { name, value: String::from_str(value) }
}

/// Applies the variable settings of a list of steps to an environment.
pub fn apply_env(env: &Environment, steps: &Vec<SetupStep>) -> (r: Environment)
    ensures
        r@ == env_after(env@, steps_view(steps@)),
{
    let mut out = env.copy();
    let ghost all = steps_view(steps@);
    for i in 0..steps.len()
        invariant
            all == steps_view(steps@),
            out@ == env_after(env@, all.take(i as int)),
    {
        proof {
            assert(all.take(i + 1).drop_last() =~= all.take(i as int));
            assert(all.take(i + 1).last() == steps@[i as int]@);
        }
        match &steps[i] {
            SetupStep::SetEnv { name, value } => {
                out.set(name.as_str(), value.as_str());
            },
            _ => {},
        }
    }
    proof {
        assert(all.take(steps.len() as int) =~= all);
    }
    out
}

// ---------------------------------------------------------------------
// Build commands
// ---------------------------------------------------------------------
/// A command with one more override where the variable is set, unchanged
/// where it is not.
pub open spec fn forwarded(
    cmd: InvocationView,
    env: Seq<(Seq<char>, Seq<char>)>,
    name: Seq<char>,
) -> InvocationView {
    match lookup(env, name) {
        Some(value) => cmd.env(name, value),
        None => cmd,
    }
}

/// The variables that a build of a triple takes over from the environment,
/// in the order in which they are handed on.
pub open spec fn forwarded_names(triple: Seq<char>) -> Seq<Seq<char>> {
    let suffix = env_suffix_spec(triple);
    seq![
        "PATH"@,
        "CC"@,
        "CC_"@ + suffix,
        "TARGET_CC"@,
        "AR"@,
        "AR_"@ + suffix,
        "TARGET_AR"@,
        "CFLAGS_"@ + suffix,
        "TARGET_CFLAGS"@,
    ]
}

/// A command after each of the named variables was handed on, in order.
pub open spec fn forward_all(
    cmd: InvocationView,
    env: Seq<(Seq<char>, Seq<char>)>,
    names: Seq<Seq<char>>,
) -> InvocationView
    decreases names.len(),
{
    if names.len() == 0 {
        cmd
    } else {
        forwarded(forward_all(cmd, env, names.drop_last()), env, names.last())
    }
}

/// The build of one triple: the base command with the build flags, coloured
/// output switched on, and the cross-compilation variables of the
/// environment handed on.
pub open spec fn android_build(
    triple: Seq<char>,
    mode: Mode,
    features: FeatureOptionsView,
    env: Seq<(Seq<char>, Seq<char>)>,
) -> InvocationView {
    forward_all(
        parsed("cargo build"@).args(build_flags(triple, mode, features)).env(
            "CARGO_TERM_COLOR"@,
            "always"@,
        ),
        env,
        forwarded_names(triple),
    )
}

impl AndroidTargetView {
    /// One build per triple, in the order of the triples.
    pub open spec fn build_plan(
        self,
        mode: Mode,
        features: FeatureOptionsView,
        env: Seq<(Seq<char>, Seq<char>)>,
    ) -> Seq<InvocationView> {
        Seq::new(
            self.architectures.len(),
            |i: int| android_build(self.architectures[i], mode, features, env),
        )
    }

    /// The directory into which cargo builds the first triple.
    pub open spec fn library_directory(self, target_dir: Seq<char>, mode: Mode) -> Seq<char> {
        target_dir + "/"@ + self.architectures[0] + "/"@ + mode_name(mode)
    }

    /// The path of the library built for the first triple.
    pub open spec fn library_path(
        self,
        target_dir: Seq<char>,
        lib_name: Seq<char>,
        mode: Mode,
        lib_type: LibType,
    ) -> Seq<char> {
        self.library_directory(target_dir, mode) + "/"@ + library_file_name_spec(
            lib_name,
            lib_type,
        )
    }
}

/// The file name of the library built from a crate.
pub open spec fn library_file_name_spec(lib_name: Seq<char>, lib_type: LibType) -> Seq<char> {
    "lib"@ + lib_name + "."@ + lib_type_extension_android(lib_type)
}

/// Hands one variable of the environment on to a command, if it is set.
pub fn forward(cmd: Invocation, env: &Environment, name: &str) -> (r: Invocation)
    ensures
        r@ == forwarded(cmd@, env@, name@),
{
    let mut cmd = cmd;
    match env.get(name) {
        Some(value) => {
            cmd.env(name, value.as_str());
        },
        None => {},
    }
    cmd
}

/// The build of one triple, starting from a base command.
pub fn build_command(
    base: Invocation,
    triple: &str,
    mode: Mode,
    features: &FeatureOptions,
    env: &Environment,
) -> (r: Invocation)
    ensures
        r@ == forward_all(
            base@.args(build_flags(triple@, mode, features@)).env(
                "CARGO_TERM_COLOR"@,
                "always"@,
            ),
            env@,
            forwarded_names(triple@),
        ),
{
    let mut cmd = with_build_flags(base, triple, mode, features);
    cmd.env("CARGO_TERM_COLOR", "always");
    let suffix = env_suffix(triple);
    let names: Vec<String> = vec![
        String::from_str("PATH"),
        String::from_str("CC"),
        String::from_str("CC_").concat(suffix.as_str()),
        String::from_str("TARGET_CC"),
        String::from_str("AR"),
        String::from_str("AR_").concat(suffix.as_str()),
        String::from_str("TARGET_AR"),
        String::from_str("CFLAGS_").concat(suffix.as_str()),
        String::from_str("TARGET_CFLAGS"),
    ];
    let ghost wanted = forwarded_names(triple@);
    let ghost start = cmd@;
    assert(names.deep_view() =~= wanted);
    for i in 0..names.len()
        invariant
            names.deep_view() == wanted,
            cmd@ == forward_all(start, env@, wanted.take(i as int)),
    {
        proof {
            assert(wanted.take(i + 1).drop_last() =~= wanted.take(i as int));
            assert(wanted.take(i + 1).last() == names@[i as int]@);
        }
        cmd = forward(cmd, env, names[i].as_str());
    }
    proof {
        assert(wanted.take(names.len() as int) =~= wanted);
    }
    cmd
}

pub fn library_file_name(lib_name: &str, lib_type: LibType) -> (r: String)
    ensures
        r@ == library_file_name_spec(lib_name@, lib_type),
{
    String::from_str("lib").concat(lib_name).concat(".").concat(lib_type.file_extension_android())
}

impl AndroidTarget {
    /// One `cargo build` per triple of the target, each with the
    /// cross-compilation variables that are set in `env`.
    pub fn cargo_build_commands(&self, mode: Mode, features: &FeatureOptions, env: &Environment) -> (plan:
        Vec<Invocation>)
        ensures
            plan_view(plan@) == self@.build_plan(mode, features@, env@),
    {
        let mut plan: Vec<Invocation> = Vec::new();
        let ghost goal = self@.build_plan(mode, features@, env@);
        for i in 0..self.architectures.len()
            invariant
                goal == self@.build_plan(mode, features@, env@),
                plan_view(plan@) == goal.take(i as int),
        {
            let cmd = build_command(
                Invocation::parse("cargo build"),
                self.architectures[i],
                mode,
                features,
                env,
            );
            proof {
                assert(self@.architectures[i as int] == self.architectures@[i as int]@);
                lemma_push_invocation(plan@, cmd);
            }
            plan.push(cmd);
            assert(plan_view(plan@) =~= goal.take(i + 1));
        }
        assert(goal.take(self.architectures.len() as int) =~= goal);
        plan
    }

    /// The commands to run before the builds. The toolchain is prepared by
    /// `setup_environment`, so there are none.
    pub fn setup_commands(&self) -> (plan: Vec<Invocation>)
        ensures
            plan@.len() == 0,
    {
        Vec::new()
    }

    /// The steps that prepare the NDK toolchain for this target. The NDK is
    /// found through `ANDROID_NDK_HOME`; without it nothing is planned.
    pub fn setup_environment(&self, env: &Environment, host: HostOs) -> (r: Result<
        Vec<SetupStep>,
        ToolchainError,
    >)
        requires
            self.architectures@.len() > 0,
        ensures
            match r {
                Ok(steps) => lookup(env@, "ANDROID_NDK_HOME"@) matches Some(ndk_home)
                    && steps_view(steps@) == setup_steps(self@, env@, ndk_home, host),
                Err(e) => lookup(env@, "ANDROID_NDK_HOME"@) is None && e@
                    == ToolchainErrorView::NdkHomeNotSet,
            },
    {
        let ndk_home = match env.get("ANDROID_NDK_HOME") {
            Some(path) => path,
            None => {
                return Err(ToolchainError::NdkHomeNotSet);
            },
        };
        let toolchain = toolchain_path(ndk_home.as_str(), host);
        let arch = self.architectures[0];
        let api = self.api_level;
        let ar = ar_path(toolchain.as_str(), host);
        let clang = clang_path(toolchain.as_str(), host, arch, api);
        let config_content = cargo_config(arch, ar.as_str(), clang.as_str());
        let mut steps: Vec<SetupStep> = Vec::new();
        assert(steps_view(steps@) =~= Seq::empty());
        push_step(&mut steps, SetupStep::CreateDir { path: String::from_str(".cargo") });
        push_step(
            &mut steps,
            SetupStep::WriteFile {
                path: String::from_str(".cargo/config.toml"),
                content: config_content,
            },
        );
        push_step(&mut steps, SetupStep::RequireFile { path: ar });
        push_step(&mut steps, SetupStep::RequireFile { path: clang });
        let ghost head = steps_view(steps@);
        let mut shim = self.setup_ring_specific_fixes(env, toolchain.as_str(), host, api);
        let ghost tail = steps_view(shim@);
        let ghost before = steps@;
        let ghost added = shim@;
        steps.append(&mut shim);
        assert(steps_view(steps@) =~= head + tail);
        assert(head =~= setup_steps(self@, env@, ndk_home@, host).take(4));
        assert(steps_view(steps@) =~= setup_steps(self@, env@, ndk_home@, host));
        Ok(steps)
    }

    /// The steps that satisfy a build script which looks for the compiler
    /// and the archiver under names without the API level: a wrapper of
    /// each, per triple, that hands its arguments to the real tool, and the
    /// variables that point builds at the wrappers.
    pub fn setup_ring_specific_fixes(
        &self,
        env: &Environment,
        toolchain_path: &str,
        host: HostOs,
        api: u32,
    ) -> (steps: Vec<SetupStep>)
        requires
            self.architectures@.len() > 0,
        ensures
            steps_view(steps@) == shim_steps(self@, env@, toolchain_path@, host, api),
    {
        let sep = host.path_separator();
        let exe = host.exe_suffix();
        let home_dir = match env.get("HOME") {
            Some(home) => home,
            None => String::from_str("."),
        };
        let wrapper_dir = home_dir.concat(sep).concat("android-toolchain-bin");
        let ghost dir = wrapper_dir@;
        assert(dir == wrapper_dir_spec(lookup_or(env@, "HOME"@, "."@), host));
        let mut steps: Vec<SetupStep> = Vec::new();
        assert(steps_view(steps@) =~= Seq::empty());
        push_step(&mut steps, SetupStep::CreateDir { path: wrapper_dir.clone() });
        let ghost first = steps_view(steps@);
        let ghost triples = self@.architectures;
        assert(first =~= seq![SetupStepView::CreateDir { path: dir }] + wrapper_steps(
            toolchain_path@,
            dir,
            host,
            triples.take(0),
            api,
        ));
        for i in 0..self.architectures.len()
            invariant
                triples == self@.architectures,
                dir == wrapper_dir@,
                sep@ == path_separator(host),
                exe@ == exe_suffix(host),
                steps_view(steps@) == first + wrapper_steps(
                    toolchain_path@,
                    dir,
                    host,
                    triples.take(i as int),
                    api,
                ),
        {
            let arch = self.architectures[i];
            proof {
                assert(triples.take(i + 1).drop_last() =~= triples.take(i as int));
                assert(triples.take(i + 1).last() == arch@);
            }
            let ghost so_far = steps_view(steps@);
            let wrapper_clang_path = wrapper_dir.clone().concat(sep).concat(arch).concat(
                "-linux-android",
            ).concat("clang").concat(exe);
            let real_compiler_path = clang_path(toolchain_path, host, arch, api);
            let wrapper_ar_path = wrapper_dir.clone().concat(sep).concat(arch).concat(
                "-linux-android",
            ).concat("ar").concat(exe);
            let real_ar_path = ar_path(toolchain_path, host);
            match host {
                HostOs::Windows => {
                    let batch_content = String::from_str("@echo off\r\n\"").concat(
                        replace_char(real_compiler_path.as_str(), '\\', "\\\\").as_str(),
                    ).concat("\" %*\r\n");
                    push_step(
                        &mut steps,
                        SetupStep::WriteFile { path: wrapper_clang_path, content: batch_content },
                    );
                    let ar_batch_content = String::from_str("@echo off\r\n\"").concat(
                        replace_char(real_ar_path.as_str(), '\\', "\\\\").as_str(),
                    ).concat("\" %*\r\n");
                    push_step(
                        &mut steps,
                        SetupStep::WriteFile { path: wrapper_ar_path, content: ar_batch_content },
                    );
                },
                _ => {
                    let script_content = String::from_str("#!/bin/sh\nexec \"").concat(
                        real_compiler_path.as_str(),
                    ).concat("\" \"$@\"\n");
                    push_step(
                        &mut steps,
                        SetupStep::WriteFile {
                            path: wrapper_clang_path.clone(),
                            content: script_content,
                        },
                    );
                    let ar_script_content = String::from_str("#!/bin/sh\nexec \"").concat(
                        real_ar_path.as_str(),
                    ).concat("\" \"$@\"\n");
                    push_step(
                        &mut steps,
                        SetupStep::WriteFile {
                            path: wrapper_ar_path.clone(),
                            content: ar_script_content,
                        },
                    );
                    push_step(&mut steps, SetupStep::MakeExecutable { path: wrapper_clang_path });
                    push_step(&mut steps, SetupStep::MakeExecutable { path: wrapper_ar_path });
                },
            }
            assert(steps_view(steps@) =~= so_far + triple_wrapper_steps(
                toolchain_path@,
                dir,
                host,
                arch@,
                api,
            ));
        }
        proof {
            assert(triples.take(self.architectures.len() as int) =~= triples);
        }
        let ghost written = steps_view(steps@);
        let old_path = match env.get("PATH") {
            Some(path) => path,
            None => String::from_str(""),
        };
        let new_path = search_path(
            wrapper_dir.as_str(),
            host.search_path_separator(),
            old_path.as_str(),
        );
        push_step(&mut steps, set_env(String::from_str("PATH"), new_path.as_str()));
        let arch = self.architectures[0];
        let suffix = env_suffix(arch);
        let wrapper_script_path = wrapper_dir.clone().concat(sep).concat(arch).concat(
            "-linux-android",
        ).concat("clang");
        push_step(&mut steps, set_env(String::from_str("CC"), wrapper_script_path.as_str()));
        push_step(
            &mut steps,
            set_env(String::from_str("CC_").concat(suffix.as_str()), wrapper_script_path.as_str()),
        );
        push_step(&mut steps, set_env(String::from_str("TARGET_CC"), wrapper_script_path.as_str()));
        let ar_wrapper_path = wrapper_dir.clone().concat(sep).concat(arch).concat(
            "-linux-android",
        ).concat("ar");
        push_step(&mut steps, set_env(String::from_str("AR"), ar_wrapper_path.as_str()));
        push_step(
            &mut steps,
            set_env(String::from_str("AR_").concat(suffix.as_str()), ar_wrapper_path.as_str()),
        );
        push_step(&mut steps, set_env(String::from_str("TARGET_AR"), ar_wrapper_path.as_str()));
        let cflags = String::from_str("--target=").concat(arch).concat(
            decimal_string(api).as_str(),
        );
        push_step(
            &mut steps,
            set_env(String::from_str("CFLAGS_").concat(suffix.as_str()), cflags.as_str()),
        );
        push_step(&mut steps, set_env(String::from_str("TARGET_CFLAGS"), cflags.as_str()));
        assert(steps_view(steps@) =~= written + wrapper_env_steps(env@, dir, host, arch@, api));
        steps
    }

    /// All commands necessary to build this target, to be run in the order
    /// given.
    pub fn commands(
        &self,
        _lib_name: &str,
        mode: Mode,
        _lib_type: LibType,
        features: &FeatureOptions,
        env: &Environment,
    ) -> (plan: Vec<Invocation>)
        ensures
            plan_view(plan@) == self@.build_plan(mode, features@, env@),
    {
        let mut commands = self.setup_commands();
        let mut builds = self.cargo_build_commands(mode, features, env);
        let ghost built = builds@;
        commands.append(&mut builds);
        assert(commands@ =~= built);
        commands
    }

    /// The names of all target triples of this target, as Rust names them.
    pub fn architectures(&self) -> (r: &[&'static str])
        ensures
            r@ == self.architectures@,
    {
        self.architectures.as_slice()
    }

    pub fn display_name(&self) -> (r: &'static str)
        ensures
            r == self.display_name,
    {
        self.display_name
    }

    pub fn library_directory(&self, target_dir: &str, mode: Mode) -> (r: String)
        requires
            self.architectures@.len() > 0,
        ensures
            r@ == self@.library_directory(target_dir@, mode),
    {
        let mode_str = match mode {
            Mode::Debug => "debug",
            Mode::Release => "release",
        };
        String::from_str(target_dir).concat("/").concat(self.architectures[0]).concat("/").concat(
            mode_str,
        )
    }

    pub fn library_path(&self, target_dir: &str, lib_name: &str, mode: Mode, lib_type: LibType) -> (r:
        String)
        requires
            self.architectures@.len() > 0,
        ensures
            r@ == self@.library_path(target_dir@, lib_name@, mode, lib_type),
    {
        self.library_directory(target_dir, mode).concat("/").concat(
            library_file_name(lib_name, lib_type).as_str(),
        )
    }
}


/// Handing variables on changes neither the program nor the arguments of
/// a command and keeps the overrides it had. Every override that is added
/// binds one of the named variables to the value it has in the
/// environment, and every named variable that is set in the environment
/// is handed on.
pub proof fn lemma_forwarding_invents_nothing(
    cmd: InvocationView,
    env: Seq<(Seq<char>, Seq<char>)>,
    names: Seq<Seq<char>>,
)
    ensures
        forward_all(cmd, env, names).program == cmd.program,
        forward_all(cmd, env, names).args == cmd.args,
        forward_all(cmd, env, names).envs.len() >= cmd.envs.len(),
        forward_all(cmd, env, names).envs.take(cmd.envs.len() as int) == cmd.envs,
        forall|i: int|
            cmd.envs.len() <= i < forward_all(cmd, env, names).envs.len() ==> {
                let pair = #[trigger] forward_all(cmd, env, names).envs[i];
                names.contains(pair.0) && lookup(env, pair.0) == Some(pair.1)
            },
        forall|j: int|
            0 <= j < names.len() && lookup(env, #[trigger] names[j]) is Some ==> forward_all(
                cmd,
                env,
                names,
            ).envs.contains((names[j], lookup(env, names[j]).unwrap())),
    decreases names.len(),
{
    let after = forward_all(cmd, env, names);
    if names.len() == 0 {
        assert(after.envs.take(cmd.envs.len() as int) =~= cmd.envs);
    } else {
        let earlier = names.drop_last();
        let before = forward_all(cmd, env, earlier);
        lemma_forwarding_invents_nothing(cmd, env, earlier);
        assert(after.envs.take(cmd.envs.len() as int) =~= before.envs.take(cmd.envs.len() as int));
        assert forall|i: int| cmd.envs.len() <= i < after.envs.len() implies {
            let pair = #[trigger] after.envs[i];
            names.contains(pair.0) && lookup(env, pair.0) == Some(pair.1)
        } by {
            if i < before.envs.len() {
                let pair = before.envs[i];
                assert(after.envs[i] == pair);
                assert(earlier.contains(pair.0));
                let k = choose|k: int| 0 <= k < earlier.len() && earlier[k] == pair.0;
                assert(names[k] == pair.0);
            } else {
                assert(after.envs[i].0 == names.last());
                assert(names[names.len() - 1] == names.last());
            }
        }
        assert forall|j: int|
            0 <= j < names.len() && lookup(env, #[trigger] names[j]) is Some implies after.envs.contains(
            (names[j], lookup(env, names[j]).unwrap()),
        ) by {
            let wanted = (names[j], lookup(env, names[j]).unwrap());
            if j < earlier.len() {
                assert(earlier[j] == names[j]);
                assert(before.envs.contains(wanted));
                let k = choose|k: int| 0 <= k < before.envs.len() && before.envs[k] == wanted;
                assert(after.envs[k] == wanted);
            } else {
                assert(after.envs[after.envs.len() - 1] == wanted);
            }
        }
    }
}

/// The build of a triple runs the base command with the build flags of
/// the triple. Its first override switches coloured output on; every other
/// override hands on a cross-compilation variable with the value it has in
/// the environment, and no such variable that is set is left out.
pub proof fn lemma_build_forwards_what_is_set(
    triple: Seq<char>,
    mode: Mode,
    features: FeatureOptionsView,
    env: Seq<(Seq<char>, Seq<char>)>,
)
    ensures
        android_build(triple, mode, features, env).program == parsed("cargo build"@).program,
        android_build(triple, mode, features, env).args == parsed("cargo build"@).args
            + build_flags(triple, mode, features),
        android_build(triple, mode, features, env).envs.len() >= 1,
        android_build(triple, mode, features, env).envs[0] == ("CARGO_TERM_COLOR"@, "always"@),
        forall|i: int|
            1 <= i < android_build(triple, mode, features, env).envs.len() ==> {
                let pair = #[trigger] android_build(triple, mode, features, env).envs[i];
                forwarded_names(triple).contains(pair.0) && lookup(env, pair.0) == Some(pair.1)
            },
        forall|j: int|
            0 <= j < forwarded_names(triple).len() && lookup(
                env,
                #[trigger] forwarded_names(triple)[j],
            ) is Some ==> android_build(triple, mode, features, env).envs.contains(
                (forwarded_names(triple)[j], lookup(env, forwarded_names(triple)[j]).unwrap()),
            ),
{
    let base = parsed("cargo build"@).args(build_flags(triple, mode, features)).env(
        "CARGO_TERM_COLOR"@,
        "always"@,
    );
    lemma_forwarding_invents_nothing(base, env, forwarded_names(triple));
    let built = android_build(triple, mode, features, env);
    assert(base.envs.len() == 1);
    assert(built.envs.take(1)[0] == base.envs[0]);
}

/// A build plan holds exactly one invocation per triple, in the order of
/// the triples; the flags of each name its triple and carry the release
/// flag exactly in release mode.
pub proof fn lemma_one_build_per_triple(
    target: AndroidTargetView,
    mode: Mode,
    features: FeatureOptionsView,
    env: Seq<(Seq<char>, Seq<char>)>,
)
    ensures
        target.build_plan(mode, features, env).len() == target.architectures.len(),
        forall|i: int|
            #![trigger target.build_plan(mode, features, env)[i]]
            0 <= i < target.architectures.len() ==> {
                let built = target.build_plan(mode, features, env)[i];
                let base = parsed("cargo build"@);
                let flags = build_flags(target.architectures[i], mode, features);
                &&& built.program == base.program
                &&& built.args == base.args + flags
                &&& flags[0] == "--target"@
                &&& flags[1] == target.architectures[i]
                &&& (crate::common::cargo::has_release_flag(flags) <==> mode == Mode::Release)
            },
{
    assert forall|i: int|
        #![trigger target.build_plan(mode, features, env)[i]]
        0 <= i < target.architectures.len() implies {
        let built = target.build_plan(mode, features, env)[i];
        let base = parsed("cargo build"@);
        let flags = build_flags(target.architectures[i], mode, features);
        &&& built.program == base.program
        &&& built.args == base.args + flags
        &&& flags[0] == "--target"@
        &&& flags[1] == target.architectures[i]
        &&& (crate::common::cargo::has_release_flag(flags) <==> mode == Mode::Release)
    } by {
        crate::common::cargo::lemma_release_flag_iff_release(
            target.architectures[i],
            mode,
            features,
        );
        lemma_build_forwards_what_is_set(target.architectures[i], mode, features, env);
    }
}

/// The names of the variables that the preparation of a triple sets, in
/// the order in which it sets them.
pub open spec fn prepared_names(triple: Seq<char>) -> Seq<Seq<char>> {
    forwarded_names(triple)
}

/// Whether every variable that the steps set is one of `names`.
pub open spec fn sets_only(steps: Seq<SetupStepView>, names: Seq<Seq<char>>) -> bool {
    forall|i: int|
        0 <= i < steps.len() ==> ((#[trigger] steps[i]) matches SetupStepView::SetEnv {
            name,
            ..
        } ==> names.contains(name))
}

proof fn lemma_sets_only_concat(
    a: Seq<SetupStepView>,
    b: Seq<SetupStepView>,
    names: Seq<Seq<char>>,
)
    requires
        sets_only(a, names),
        sets_only(b, names),
    ensures
        sets_only(a + b, names),
{
    assert forall|i: int| 0 <= i < (a + b).len() implies ((#[trigger] (a + b)[i])
        matches SetupStepView::SetEnv { name, .. } ==> names.contains(name)) by {
        if i < a.len() {
            assert((a + b)[i] == a[i]);
        } else {
            assert((a + b)[i] == b[i - a.len()]);
        }
    }
}

proof fn lemma_wrappers_set_nothing(
    toolchain: Seq<char>,
    wrapper_dir: Seq<char>,
    host: HostOs,
    triples: Seq<Seq<char>>,
    api: u32,
    names: Seq<Seq<char>>,
)
    ensures
        sets_only(wrapper_steps(toolchain, wrapper_dir, host, triples, api), names),
    decreases triples.len(),
{
    if triples.len() > 0 {
        lemma_wrappers_set_nothing(toolchain, wrapper_dir, host, triples.drop_last(), api, names);
        let last = triple_wrapper_steps(toolchain, wrapper_dir, host, triples.last(), api);
        assert(sets_only(last, names));
        lemma_sets_only_concat(
            wrapper_steps(toolchain, wrapper_dir, host, triples.drop_last(), api),
            last,
            names,
        );
    }
}

/// The preparation of a target sets no variables but those named for its
/// first triple.
pub proof fn lemma_setup_sets_only_the_prepared_names(
    target: AndroidTargetView,
    env: Seq<(Seq<char>, Seq<char>)>,
    ndk_home: Seq<char>,
    host: HostOs,
)
    ensures
        sets_only(
            setup_steps(target, env, ndk_home, host),
            prepared_names(target.architectures[0]),
        ),
{
    let names = prepared_names(target.architectures[0]);
    let toolchain = toolchain_path_spec(ndk_home, host);
    let wrapper_dir = wrapper_dir_spec(lookup_or(env, "HOME"@, "."@), host);
    let api = target.api_level;
    let head = setup_steps(target, env, ndk_home, host).take(4);
    let create = seq![SetupStepView::CreateDir { path: wrapper_dir }];
    let wrappers = wrapper_steps(toolchain, wrapper_dir, host, target.architectures, api);
    let sets = wrapper_env_steps(env, wrapper_dir, host, target.architectures[0], api);
    lemma_wrappers_set_nothing(toolchain, wrapper_dir, host, target.architectures, api, names);
    assert(sets_only(head, names));
    assert(sets_only(create, names));
    assert(sets_only(sets, names)) by {
        assert forall|i: int| 0 <= i < sets.len() implies ((#[trigger] sets[i])
            matches SetupStepView::SetEnv { name, .. } ==> names.contains(name)) by {
            assert(sets[i]->SetEnv_name == names[i]);
        }
    }
    lemma_sets_only_concat(create, wrappers, names);
    lemma_sets_only_concat(create + wrappers, sets, names);
    lemma_sets_only_concat(head, create + wrappers + sets, names);
    assert(setup_steps(target, env, ndk_home, host) =~= head + (create + wrappers + sets));
}

/// Steps that do not set a variable leave it as it was.
pub proof fn lemma_unset_names_are_kept(
    env: Seq<(Seq<char>, Seq<char>)>,
    steps: Seq<SetupStepView>,
    names: Seq<Seq<char>>,
    name: Seq<char>,
)
    requires
        sets_only(steps, names),
        !names.contains(name),
    ensures
        lookup(env_after(env, steps), name) == lookup(env, name),
    decreases steps.len(),
{
    if steps.len() > 0 {
        let earlier = steps.drop_last();
        assert forall|i: int| 0 <= i < earlier.len() implies ((#[trigger] earlier[i])
            matches SetupStepView::SetEnv { name, .. } ==> names.contains(name)) by {
            assert(earlier[i] == steps[i]);
        }
        lemma_unset_names_are_kept(env, earlier, names, name);
        let before = env_after(env, earlier);
        match steps.last() {
            SetupStepView::SetEnv { name: set, value } => {
                assert(steps[steps.len() - 1] == steps.last());
                assert(names.contains(set));
                assert(before.push((set, value)).drop_last() =~= before);
            },
            _ => {},
        }
    }
}

/// The variables that locate the NDK and the home directory are never
/// among those that a preparation sets.
pub proof fn lemma_prepared_names_spare_home_and_ndk(triple: Seq<char>)
    ensures
        !prepared_names(triple).contains("HOME"@),
        !prepared_names(triple).contains("ANDROID_NDK_HOME"@),
{
    reveal_strlit("HOME");
    reveal_strlit("ANDROID_NDK_HOME");
    reveal_strlit("PATH");
    reveal_strlit("CC");
    reveal_strlit("CC_");
    reveal_strlit("TARGET_CC");
    reveal_strlit("AR");
    reveal_strlit("AR_");
    reveal_strlit("TARGET_AR");
    reveal_strlit("CFLAGS_");
    reveal_strlit("TARGET_CFLAGS");
    let names = prepared_names(triple);
    let suffix = env_suffix_spec(triple);
    let home = "HOME"@;
    let ndk = "ANDROID_NDK_HOME"@;
    assert(home[0] == 'H' && home.len() == 4);
    assert(ndk[0] == 'A' && ndk[1] == 'N' && ndk.len() == 16);
    assert(names[0][0] == 'P');
    assert(names[1].len() == 2);
    assert(names[2][0] == 'C');
    assert(names[3][0] == 'T');
    assert(names[4].len() == 2);
    assert(names[5][0] == 'A' && names[5][1] == 'R');
    assert(names[6][0] == 'T');
    assert(names[7][0] == 'C');
    assert(names[8][0] == 'T');
    assert forall|i: int| 0 <= i < names.len() implies names[i] != home && names[i] != ndk by {}
}

/// Once a target is prepared, the home directory and the NDK are found
/// where they were found before.
pub proof fn lemma_setup_keeps_home_and_ndk(
    target: AndroidTargetView,
    env: Seq<(Seq<char>, Seq<char>)>,
    ndk_home: Seq<char>,
    host: HostOs,
)
    ensures
        lookup(env_after(env, setup_steps(target, env, ndk_home, host)), "HOME"@) == lookup(
            env,
            "HOME"@,
        ),
        lookup(env_after(env, setup_steps(target, env, ndk_home, host)), "ANDROID_NDK_HOME"@)
            == lookup(env, "ANDROID_NDK_HOME"@),
{
    let names = prepared_names(target.architectures[0]);
    let steps = setup_steps(target, env, ndk_home, host);
    lemma_setup_sets_only_the_prepared_names(target, env, ndk_home, host);
    lemma_prepared_names_spare_home_and_ndk(target.architectures[0]);
    lemma_unset_names_are_kept(env, steps, names, "HOME"@);
    lemma_unset_names_are_kept(env, steps, names, "ANDROID_NDK_HOME"@);
}

/// A search path that was given a directory in front begins with that
/// directory, and giving it the same directory again changes nothing.
pub proof fn lemma_search_path_is_settled(dir: Seq<char>, sep: Seq<char>, old: Seq<char>)
    ensures
        starts_with_spec(search_path_with(dir, sep, old), dir + sep),
        search_path_with(dir, sep, search_path_with(dir, sep, old)) == search_path_with(
            dir,
            sep,
            old,
        ),
{
    let front = dir + sep;
    if !starts_with_spec(old, front) {
        assert((front + old).take(front.len() as int) =~= front);
    }
}

/// The value that the last of the steps to set a variable gives it, if any
/// of them sets it.
pub open spec fn last_set(steps: Seq<SetupStepView>, name: Seq<char>) -> Option<Seq<char>>
    decreases steps.len(),
{
    if steps.len() == 0 {
        None
    } else {
        match steps.last() {
            SetupStepView::SetEnv { name: set, value } if set == name => Some(value),
            _ => last_set(steps.drop_last(), name),
        }
    }
}

/// After steps were carried out, a variable has the value that the last
/// step to set it gave it, and the value it had before where no step sets
/// it.
pub proof fn lemma_lookup_after_steps(
    env: Seq<(Seq<char>, Seq<char>)>,
    steps: Seq<SetupStepView>,
    name: Seq<char>,
)
    ensures
        lookup(env_after(env, steps), name) == (match last_set(steps, name) {
            Some(value) => Some(value),
            None => lookup(env, name),
        }),
    decreases steps.len(),
{
    if steps.len() > 0 {
        lemma_lookup_after_steps(env, steps.drop_last(), name);
        let before = env_after(env, steps.drop_last());
        match steps.last() {
            SetupStepView::SetEnv { name: set, value } => {
                assert(before.push((set, value)).drop_last() =~= before);
            },
            _ => {},
        }
    }
}

/// Steps that follow other steps decide the value of every variable they
/// set; the steps before them decide the value of the others.
proof fn lemma_last_set_concat(a: Seq<SetupStepView>, b: Seq<SetupStepView>, name: Seq<char>)
    ensures
        last_set(a + b, name) == (match last_set(b, name) {
            Some(value) => Some(value),
            None => last_set(a, name),
        }),
    decreases b.len(),
{
    if b.len() == 0 {
        assert(a + b =~= a);
    } else {
        assert((a + b).drop_last() =~= a + b.drop_last());
        assert((a + b).last() == b.last());
        lemma_last_set_concat(a, b.drop_last(), name);
    }
}

/// The preparation of a target leaves the search path at the value that
/// its first variable step gives it: no later step sets the search path.
pub proof fn lemma_setup_settles_the_search_path(
    target: AndroidTargetView,
    env: Seq<(Seq<char>, Seq<char>)>,
    ndk_home: Seq<char>,
    host: HostOs,
)
    ensures
        lookup(env_after(env, setup_steps(target, env, ndk_home, host)), "PATH"@) == Some(
            search_path_with(
                wrapper_dir_spec(lookup_or(env, "HOME"@, "."@), host),
                search_path_separator(host),
                lookup_or(env, "PATH"@, ""@),
            ),
        ),
{
    reveal_strlit("PATH");
    reveal_strlit("CC");
    reveal_strlit("CC_");
    reveal_strlit("TARGET_CC");
    reveal_strlit("AR");
    reveal_strlit("AR_");
    reveal_strlit("TARGET_AR");
    reveal_strlit("CFLAGS_");
    reveal_strlit("TARGET_CFLAGS");
    let steps = setup_steps(target, env, ndk_home, host);
    let toolchain = toolchain_path_spec(ndk_home, host);
    let wrapper_dir = wrapper_dir_spec(lookup_or(env, "HOME"@, "."@), host);
    let api = target.api_level;
    let triple = target.architectures[0];
    let head = steps.take(4);
    let create = seq![SetupStepView::CreateDir { path: wrapper_dir }];
    let wrappers = wrapper_steps(toolchain, wrapper_dir, host, target.architectures, api);
    let fixed = head + (create + wrappers);
    let sets = wrapper_env_steps(env, wrapper_dir, host, triple, api);
    assert(steps =~= fixed + sets);
    let path = "PATH"@;
    assert(path[0] == 'P' && path.len() == 4);
    assert(sets[1]->SetEnv_name.len() == 2);
    assert(sets[2]->SetEnv_name[0] == 'C');
    assert(sets[3]->SetEnv_name[0] == 'T');
    assert(sets[4]->SetEnv_name.len() == 2);
    assert(sets[5]->SetEnv_name[0] == 'A');
    assert(sets[6]->SetEnv_name[0] == 'T');
    assert(sets[7]->SetEnv_name[0] == 'C');
    assert(sets[8]->SetEnv_name[0] == 'T');
    assert(last_set(sets, path) == Some(sets[0]->SetEnv_value)) by {
        reveal_with_fuel(last_set, 10);
    }
    lemma_last_set_concat(fixed, sets, path);
    lemma_lookup_after_steps(env, steps, path);
}

/// Preparing the toolchain is idempotent. A second preparation, in the
/// environment that the first left behind, plans the very same steps: the
/// same configuration, the same wrappers with the same content, and the
/// same value for every variable, the search path among them. Carrying the
/// steps out again leaves every variable at the value it had.
pub proof fn lemma_setup_is_idempotent(
    target: AndroidTargetView,
    env: Seq<(Seq<char>, Seq<char>)>,
    ndk_home: Seq<char>,
    host: HostOs,
    name: Seq<char>,
)
    ensures
        setup_steps(
            target,
            env_after(env, setup_steps(target, env, ndk_home, host)),
            ndk_home,
            host,
        ) == setup_steps(target, env, ndk_home, host),
        ({
            let once = env_after(env, setup_steps(target, env, ndk_home, host));
            let twice = env_after(once, setup_steps(target, once, ndk_home, host));
            lookup(twice, name) == lookup(once, name)
        }),
{
    let first = setup_steps(target, env, ndk_home, host);
    let once = env_after(env, first);
    let again = setup_steps(target, once, ndk_home, host);
    lemma_setup_keeps_home_and_ndk(target, env, ndk_home, host);
    lemma_setup_settles_the_search_path(target, env, ndk_home, host);
    let wrapper_dir = wrapper_dir_spec(lookup_or(env, "HOME"@, "."@), host);
    assert(wrapper_dir == wrapper_dir_spec(lookup_or(once, "HOME"@, "."@), host));
    let sep = search_path_separator(host);
    let old = lookup_or(env, "PATH"@, ""@);
    lemma_search_path_is_settled(wrapper_dir, sep, old);
    assert(lookup_or(once, "PATH"@, ""@) == search_path_with(wrapper_dir, sep, old));
    let api = target.api_level;
    let sets1 = wrapper_env_steps(env, wrapper_dir, host, target.architectures[0], api);
    let sets2 = wrapper_env_steps(once, wrapper_dir, host, target.architectures[0], api);
    assert(sets2 =~= sets1);
    assert(again =~= first);
    lemma_lookup_after_steps(env, first, name);
    lemma_lookup_after_steps(once, first, name);
}

} // verus!
