//! Planning the build of an Android package: which crates to build, what
//! to ask the user, which targets the selected architectures stand for,
//! and for each target the preparation of its toolchain and its build.

use vstd::prelude::*;
use vstd::string::*;
use crate::android::android_target::{
    all_archs,
    android_target_of,
    apply_env,
    arch_display_name,
    env_after,
    setup_steps,
    steps_view,
    AndroidArch,
    AndroidTarget,
    AndroidTargetView,
    HostOs,
    SetupStep,
    SetupStepView,
    ToolchainErrorView,
};
use crate::common::command::{set_env_on_all, with_env_on_all};
use crate::common::environment::{lookup, Environment};
use crate::common::error::{PackageError, PackageErrorView};
use crate::common::metadata::{crates_view, CrateInfo, CrateInfoView};
use crate::common::models::{Config, FeatureOptions, FeatureOptionsView, LibType, Mode};
use crate::common::text::{lowercase, str_eq, to_lowercase, opt_str_view, opt_string_view};
use crate::console::prompt::{
    name_prompt,
    selection_prompt,
    NamePrompt,
    SelectionPrompt,
};
use crate::console::step::{BuildStep, BuildStepView};

verus! {

/// The work for one target: prepare its toolchain, then build it.
#[derive(Debug, PartialEq, Eq)]
pub struct AndroidBuild {
    /// The steps that prepare the toolchain, to be carried out in order
    /// before the build.
    pub setup: Vec<SetupStep>,
    /// The name of the target, for the failure to report where a step of
    /// the preparation fails.
    pub target: String,
    /// The build itself.
    pub step: BuildStep,
}

pub ghost struct AndroidBuildView {
    pub setup: Seq<SetupStepView>,
    pub target: Seq<char>,
    pub step: BuildStepView,
}

impl View for AndroidBuild {
    type V = AndroidBuildView;

    open spec fn view(&self) -> AndroidBuildView {
        AndroidBuildView { setup: steps_view(self.setup@), target: self.target@, step: self.step@ }
    }
}

/// The views of a list of builds, in order.
pub open spec fn builds_view(builds: Seq<AndroidBuild>) -> Seq<AndroidBuildView> {
    builds.map_values(|b: AndroidBuild| b@)
}

/// The views of a list of targets, in order.
pub open spec fn targets_view(targets: Seq<AndroidTarget>) -> Seq<AndroidTargetView> {
    targets.map_values(|t: AndroidTarget| t@)
}

/// Everything that is known before the build of one crate starts.
#[derive(Debug, PartialEq, Eq)]
pub struct AndroidPackagePlan {
    /// The name under which the library is linked.
    pub crate_name: String,
    /// The name of the Kotlin package.
    pub package_name: String,
    /// What to tell the user before the build. Nothing here stops the build.
    pub warnings: Vec<String>,
    /// The targets to build, in the order of the selection.
    pub targets: Vec<AndroidTarget>,
    /// One build per target, in the order of the targets.
    pub builds: Vec<AndroidBuild>,
}

pub ghost struct AndroidPackagePlanView {
    pub crate_name: Seq<char>,
    pub package_name: Seq<char>,
    pub warnings: Seq<Seq<char>>,
    pub targets: Seq<AndroidTargetView>,
    pub builds: Seq<AndroidBuildView>,
}

impl View for AndroidPackagePlan {
    type V = AndroidPackagePlanView;

    open spec fn view(&self) -> AndroidPackagePlanView {
        AndroidPackagePlanView {
            crate_name: self.crate_name@,
            package_name: self.package_name@,
            warnings: self.warnings.deep_view(),
            targets: targets_view(self.targets@),
            builds: builds_view(self.builds@),
        }
    }
}

/// What has to happen next for one crate.
#[derive(Debug, PartialEq, Eq)]
pub enum AndroidStep {
    /// Ask the user for the package name, offering a default.
    AskPackageName { default: String },
    /// Ask the user for the architectures. `items` names every architecture
    /// in the order of `AndroidArch::all`; `defaults` marks the preselected
    /// ones.
    AskArchitectures { items: Vec<String>, defaults: Vec<bool> },
    /// Everything is decided: carry out the plan.
    Build(AndroidPackagePlan),
}

pub ghost enum AndroidStepView {
    AskPackageName { default: Seq<char> },
    AskArchitectures { items: Seq<Seq<char>>, defaults: Seq<bool> },
    Build(AndroidPackagePlanView),
}

impl View for AndroidStep {
    type V = AndroidStepView;

    open spec fn view(&self) -> AndroidStepView {
        match self {
            AndroidStep::AskPackageName { default } => AndroidStepView::AskPackageName {
                default: default@,
            },
            AndroidStep::AskArchitectures { items, defaults } => AndroidStepView::AskArchitectures {
                items: items.deep_view(),
                defaults: defaults@,
            },
            AndroidStep::Build(plan) => AndroidStepView::Build(plan@),
        }
    }
}

/// The view of the outcome of a decision.
pub open spec fn step_result_view(r: Result<AndroidStep, PackageError>) -> Result<
    AndroidStepView,
    PackageErrorView,
> {
    match r {
        Ok(step) => Ok(step@),
        Err(e) => Err(e@),
    }
}

/// What is said where a static library is asked for.
pub open spec fn static_warning() -> Seq<char> {
    "Building as static library for Android is unusual. Dynamic libraries (.so) are typically used."@
}

/// The warnings that go with a library type. A static library is unusual
/// on Android; it is built all the same.
pub open spec fn warnings_for(lib_type: LibType) -> Seq<Seq<char>> {
    match lib_type {
        LibType::Static => seq![static_warning()],
        LibType::Dynamic => Seq::empty(),
    }
}

/// The package name offered for a crate.
pub open spec fn default_package_name(crate_name: Seq<char>) -> Seq<char> {
    "com."@ + lowercase(crate_name) + "."@ + lowercase(crate_name)
}

/// The names under which the architectures are offered.
pub open spec fn arch_items() -> Seq<Seq<char>> {
    all_archs().map_values(|a: AndroidArch| arch_display_name(a))
}

/// The architectures that are preselected: all but 32-bit x86.
pub open spec fn arch_defaults() -> Seq<bool> {
    seq![true, true, false, true]
}

/// The targets of a selection of architectures, one each, in order.
pub open spec fn expand(archs: Seq<AndroidArch>, api_level: u32) -> Seq<AndroidTargetView> {
    archs.map_values(|a: AndroidArch| android_target_of(a, api_level))
}

/// Whether a target passes the filter: without a filter every target does,
/// with one only a target that is built for the requested triple.
pub open spec fn selected(target: AndroidTargetView, build_target: Option<Seq<char>>) -> bool {
    match build_target {
        None => true,
        Some(triple) => target.architectures.contains(triple),
    }
}

/// The targets that pass the filter, in their order.
pub open spec fn matching(targets: Seq<AndroidTargetView>, build_target: Option<Seq<char>>) -> Seq<
    AndroidTargetView,
>
    decreases targets.len(),
{
    if targets.len() == 0 {
        Seq::empty()
    } else if selected(targets.last(), build_target) {
        matching(targets.drop_last(), build_target).push(targets.last())
    } else {
        matching(targets.drop_last(), build_target)
    }
}

/// The targets to build for a selection of architectures and an optional
/// filter. An empty selection is an error, and so is a filter that no
/// target passes.
pub open spec fn resolution(
    archs: Seq<AndroidArch>,
    build_target: Option<Seq<char>>,
    api_level: u32,
) -> Result<Seq<AndroidTargetView>, PackageErrorView> {
    if archs.len() == 0 {
        Err(PackageErrorView::NoArchitectureSelected)
    } else {
        let kept = matching(expand(archs, api_level), build_target);
        match build_target {
            Some(triple) if kept.len() == 0 => Err(
                PackageErrorView::NoMatchingBuildTarget { build_target: triple },
            ),
            _ => Ok(kept),
        }
    }
}

/// The work for one target in a given environment: the preparation of its
/// toolchain, and its builds in the environment that the preparation
/// leaves behind, each with coloured output switched on.
#[verifier::opaque]
pub open spec fn build_of(
    target: AndroidTargetView,
    env: Seq<(Seq<char>, Seq<char>)>,
    ndk_home: Seq<char>,
    host: HostOs,
    mode: Mode,
    features: FeatureOptionsView,
) -> AndroidBuildView {
    let setup = setup_steps(target, env, ndk_home, host);
    AndroidBuildView {
        setup,
        target: target.display_name,
        step: BuildStepView {
            title: "Building target "@ + target.display_name,
            commands: with_env_on_all(
                target.build_plan(mode, features, env_after(env, setup)),
                "CARGO_TERM_COLOR"@,
                "always"@,
            ),
        },
    }
}

/// The builds of a list of targets, together with the environment that
/// the last preparation leaves behind. Each target is prepared in the
/// environment that the target before it left behind, and the first in the
/// environment given. A target whose preparation finds no NDK fails the
/// plan.
pub open spec fn builds_of(
    targets: Seq<AndroidTargetView>,
    env: Seq<(Seq<char>, Seq<char>)>,
    host: HostOs,
    mode: Mode,
    features: FeatureOptionsView,
) -> Result<(Seq<AndroidBuildView>, Seq<(Seq<char>, Seq<char>)>), PackageErrorView>
    decreases targets.len(),
{
    if targets.len() == 0 {
        Ok((Seq::empty(), env))
    } else {
        match builds_of(targets.drop_last(), env, host, mode, features) {
            Err(e) => Err(e),
            Ok((earlier, before)) => match lookup(before, "ANDROID_NDK_HOME"@) {
                None => Err(
                    PackageErrorView::SetupFailed {
                        target: targets.last().display_name,
                        cause: ToolchainErrorView::NdkHomeNotSet,
                    },
                ),
                Some(ndk_home) => {
                    let build = build_of(targets.last(), before, ndk_home, host, mode, features);
                    Ok((earlier.push(build), env_after(before, build.setup)))
                },
            },
        }
    }
}

/// The decision for one crate. In this order: without the variable that
/// locates the NDK nothing is planned; a crate without a library target is
/// refused; a missing package name is asked for, or defaulted where all
/// defaults are accepted; missing architectures likewise; then the targets
/// are resolved and the plan is made.
pub open spec fn decision(
    current_crate: CrateInfoView,
    architectures: Option<Seq<AndroidArch>>,
    build_target: Option<Seq<char>>,
    api_level: u32,
    package_name: Option<Seq<char>>,
    accept_all: bool,
    mode: Mode,
    lib_type: LibType,
    features: FeatureOptionsView,
    env: Seq<(Seq<char>, Seq<char>)>,
    host: HostOs,
) -> Result<AndroidStepView, PackageErrorView> {
    if lookup(env, "ANDROID_NDK_HOME"@) is None {
        Err(PackageErrorView::NdkHomeNotSet)
    } else {
        match current_crate.library_name() {
            None => Err(PackageErrorView::NoLibraryTarget),
            Some(lib_name) => {
                if package_name is None && !accept_all {
                    Ok(
                        AndroidStepView::AskPackageName {
                            default: default_package_name(current_crate.name),
                        },
                    )
                } else if architectures is None && !accept_all {
                    Ok(
                        AndroidStepView::AskArchitectures {
                            items: arch_items(),
                            defaults: arch_defaults(),
                        },
                    )
                } else {
                    let name = match package_name {
                        Some(given) => given,
                        None => default_package_name(current_crate.name),
                    };
                    let chosen = match architectures {
                        Some(given) => given,
                        None => all_archs(),
                    };
                    match resolution(chosen, build_target, api_level) {
                        Err(e) => Err(e),
                        Ok(targets) => match builds_of(targets, env, host, mode, features) {
                            Err(e) => Err(e),
                            Ok((builds, _)) => Ok(
                                AndroidStepView::Build(
                                    AndroidPackagePlanView {
                                        crate_name: lib_name,
                                        package_name: name,
                                        warnings: warnings_for(lib_type),
                                        targets,
                                        builds,
                                    },
                                ),
                            ),
                        },
                    }
                }
            },
        }
    }
}

/// The view of an optional selection of architectures.
pub open spec fn opt_archs_view(a: Option<Vec<AndroidArch>>) -> Option<Seq<AndroidArch>> {
    match a {
        Some(list) => Some(list@),
        None => None,
    }
}

/// Whether a target is built for the requested triple, or no triple was
/// requested.
pub fn target_matches(target: &AndroidTarget, build_target: Option<&str>) -> (r: bool)
    ensures
        r == selected(target@, opt_str_view(build_target)),
{
    match build_target {
        None => true,
        Some(triple) => {
            let ghost all = target@.architectures;
            for i in 0..target.architectures.len()
                invariant
                    build_target == Some(triple),
                    all == target@.architectures,
                    forall|j: int| 0 <= j < i ==> all[j] != triple@,
            {
                assert(all[i as int] == target.architectures@[i as int]@);
                if str_eq(target.architectures[i], triple) {
                    assert(all[i as int] == triple@);
                    return true;
                }
            }
            false
        },
    }
}

/// Pushing a target onto a list pushes its view onto the list's view.
pub proof fn lemma_push_target(targets: Seq<AndroidTarget>, t: AndroidTarget)
    ensures
        targets_view(targets.push(t)) == targets_view(targets).push(t@),
{
    assert(targets_view(targets.push(t)) =~= targets_view(targets).push(t@));
}

/// Turns a selection of architectures into the targets to build, in the
/// order of the selection, and keeps of them those that are built for
/// `build_target` where one is given.
pub fn resolve_targets(
    architectures: &Vec<AndroidArch>,
    build_target: Option<&str>,
    api_level: u32,
) -> (r: Result<Vec<AndroidTarget>, PackageError>)
    ensures
        match r {
            Ok(targets) => resolution(architectures@, opt_str_view(build_target), api_level)
                == Ok::<Seq<AndroidTargetView>, PackageErrorView>(targets_view(targets@))
                && forall|i: int|
                0 <= i < targets@.len() ==> (#[trigger] targets@[i]).architectures@.len() > 0,
            Err(e) => resolution(architectures@, opt_str_view(build_target), api_level) == Err::<
                Seq<AndroidTargetView>,
                PackageErrorView,
            >(e@),
        },
{
    if architectures.len() == 0 {
        return Err(PackageError::NoArchitectureSelected);
    }
    let ghost filter = opt_str_view(build_target);
    let ghost all = expand(architectures@, api_level);
    let mut kept: Vec<AndroidTarget> = Vec::new();
    assert(targets_view(kept@) =~= matching(all.take(0), filter));
    for i in 0..architectures.len()
        invariant
            filter == opt_str_view(build_target),
            all == expand(architectures@, api_level),
            targets_view(kept@) == matching(all.take(i as int), filter),
            forall|k: int| 0 <= k < kept@.len() ==> (#[trigger] kept@[k]).architectures@.len() > 0,
    {
        let target = architectures[i].target(api_level);
        proof {
            assert(all.take(i + 1).drop_last() =~= all.take(i as int));
            assert(all.take(i + 1).last() == target@);
            assert(target@.architectures.len() == 1);
            lemma_push_target(kept@, target);
        }
        if target_matches(&target, build_target) {
            kept.push(target);
        }
    }
    proof {
        assert(all.take(architectures@.len() as int) =~= all);
    }
    match build_target {
        Some(triple) => {
            if kept.len() == 0 {
                return Err(
                    PackageError::NoMatchingBuildTarget { build_target: String::from_str(triple) },
                );
            }
        },
        None => {},
    }
    Ok(kept)
}

/// The package name to use when none was given: the default at once where
/// all defaults are accepted, else a question with the default on offer.
pub fn prompt_package_name(default: &str, accept_all: bool) -> (r: NamePrompt)
    ensures
        r@ == name_prompt(default@, accept_all),
{
    if accept_all {
        NamePrompt::Decided(String::from_str(default))
    } else {
        NamePrompt::Ask { default: String::from_str(default) }
    }
}

/// The architectures to build when none were given: all of them where all
/// defaults are accepted, else a question that offers every architecture
/// by its display name and preselects all but 32-bit x86.
pub fn prompt_architectures(accept_all: bool) -> (r: SelectionPrompt<AndroidArch>)
    ensures
        r@ == selection_prompt(all_archs(), arch_items(), arch_defaults(), accept_all),
{
    let architectures = AndroidArch::all();
    if accept_all {
        let list = vec![architectures[0], architectures[1], architectures[2], architectures[3]];
        assert(list@ =~= all_archs());
        return SelectionPrompt::Decided(list);
    }
    let mut items: Vec<String> = Vec::new();
    for i in 0..4usize
        invariant
            architectures@ == all_archs(),
            items.deep_view() == arch_items().take(i as int),
    {
        let ghost before = items;
        let name = architectures[i].display_name();
        items.push(name);
        proof {
            crate::common::text::lemma_push_string(before, items, name);
            assert(items.deep_view() =~= arch_items().take(i + 1));
        }
    }
    proof {
        assert(arch_items().take(4) =~= arch_items());
    }
    let defaults = vec![true, true, false, true];
    assert(defaults@ =~= arch_defaults());
    SelectionPrompt::Ask { items, defaults }
}

/// The architectures at the chosen positions of `AndroidArch::all`, in the
/// order in which they were chosen.
pub fn chosen_architectures(chosen: &Vec<usize>) -> (r: Vec<AndroidArch>)
    requires
        forall|i: int| 0 <= i < chosen@.len() ==> chosen@[i] < 4,
    ensures
        r@.len() == chosen@.len(),
        forall|i: int| 0 <= i < chosen@.len() ==> r@[i] == all_archs()[chosen@[i] as int],
{
    let architectures = AndroidArch::all();
    let mut out: Vec<AndroidArch> = Vec::new();
    for i in 0..chosen.len()
        invariant
            architectures@ == all_archs(),
            forall|k: int| 0 <= k < chosen@.len() ==> chosen@[k] < 4,
            out@.len() == i,
            forall|k: int| 0 <= k < i ==> out@[k] == all_archs()[chosen@[k] as int],
    {
        out.push(architectures[chosen[i]]);
    }
    out
}

fn copy_archs(list: &Vec<AndroidArch>) -> (r: Vec<AndroidArch>)
    ensures
        r@ == list@,
{
    let mut out: Vec<AndroidArch> = Vec::new();
    for i in 0..list.len()
        invariant
            out@ == list@.take(i as int),
    {
        out.push(list[i]);
        assert(out@ =~= list@.take(i + 1));
    }
    assert(list@.take(list@.len() as int) =~= list@);
    out
}

/// The view of the outcome of planning one build.
pub open spec fn build_result_view(r: Result<(AndroidBuild, Environment), PackageError>) -> Result<
    (AndroidBuildView, Seq<(Seq<char>, Seq<char>)>),
    PackageErrorView,
> {
    match r {
        Ok((build, env)) => Ok((build@, env@)),
        Err(e) => Err(e@),
    }
}

/// The work for one target in the environment `env`: first the steps that
/// prepare its toolchain, then its builds in the environment that those
/// steps leave behind, which is handed back for the target that follows.
pub fn build_with_output(
    target: &AndroidTarget,
    mode: Mode,
    features: &FeatureOptions,
    env: &Environment,
    host: HostOs,
) -> (r: Result<(AndroidBuild, Environment), PackageError>)
    requires
        target.architectures@.len() > 0,
    ensures
        build_result_view(r) == (match lookup(env@, "ANDROID_NDK_HOME"@) {
            None => Err(
                PackageErrorView::SetupFailed {
                    target: target@.display_name,
                    cause: ToolchainErrorView::NdkHomeNotSet,
                },
            ),
            Some(ndk_home) => {
                let build = build_of(target@, env@, ndk_home, host, mode, features@);
                Ok((build, env_after(env@, build.setup)))
            },
        }),
{
    reveal(build_of);
    let setup = match target.setup_environment(env, host) {
        Ok(steps) => steps,
        Err(cause) => {
            return Err(
                PackageError::SetupFailed {
                    target: String::from_str(target.display_name()),
                    cause,
                },
            );
        },
    };
    let prepared = apply_env(env, &setup);
    let mut commands = target.cargo_build_commands(mode, features, &prepared);
    set_env_on_all(&mut commands, "CARGO_TERM_COLOR", "always");
    let build = AndroidBuild {
        setup,
        target: String::from_str(target.display_name()),
        step: BuildStep {
            title: String::from_str("Building target ").concat(target.display_name()),
            commands,
        },
    };
    Ok((build, prepared))
}

/// Plans the builds of the targets, one after another: each target is
/// prepared in the environment that the target before it left behind.
pub fn plan_builds(
    targets: &Vec<AndroidTarget>,
    mode: Mode,
    features: &FeatureOptions,
    env: &Environment,
    host: HostOs,
) -> (r: Result<Vec<AndroidBuild>, PackageError>)
    requires
        forall|k: int| 0 <= k < targets@.len() ==> (#[trigger] targets@[k]).architectures@.len() > 0,
    ensures
        match r {
            Ok(builds) => builds_of(targets_view(targets@), env@, host, mode, features@)
                matches Ok(planned) && planned.0 == builds_view(builds@),
            Err(e) => builds_of(targets_view(targets@), env@, host, mode, features@) == Err::<
                (Seq<AndroidBuildView>, Seq<(Seq<char>, Seq<char>)>),
                PackageErrorView,
            >(e@),
        },
{
    let ghost all = targets_view(targets@);
    let mut builds: Vec<AndroidBuild> = Vec::new();
    let mut current = env.copy();
    assert(builds_view(builds@) =~= Seq::empty());
    assert(all.take(0) =~= Seq::empty());
    for i in 0..targets.len()
        invariant
            all == targets_view(targets@),
            forall|k: int|
                0 <= k < targets@.len() ==> (#[trigger] targets@[k]).architectures@.len() > 0,
            builds_of(all.take(i as int), env@, host, mode, features@) == Ok::<
                (Seq<AndroidBuildView>, Seq<(Seq<char>, Seq<char>)>),
                PackageErrorView,
            >((builds_view(builds@), current@)),
    {
        proof {
            assert(all.take(i + 1).drop_last() =~= all.take(i as int));
            assert(all.take(i + 1).last() == targets@[i as int]@);
        }
        match build_with_output(&targets[i], mode, features, &current, host) {
            Err(e) => {
                proof {
                    lemma_builds_fail_for_good(all, i + 1, env@, host, mode, features@);
                    assert(all.take(targets@.len() as int) =~= all);
                }
                return Err(e);
            },
            Ok((build, next)) => {
                let ghost before = builds@;
                builds.push(build);
                assert(builds_view(builds@) =~= builds_view(before).push(build@));
                current = next;
            },
        }
    }
    proof {
        assert(all.take(targets@.len() as int) =~= all);
    }
    Ok(builds)
}

/// Decides what happens next for one crate: a question to the user, the
/// plan of its build, or the reason why it cannot be built.
pub fn build_android_package_for_crate(
    current_crate: &CrateInfo,
    architectures: &Option<Vec<AndroidArch>>,
    build_target: Option<&str>,
    api_level: u32,
    package_name: &Option<String>,
    config: &Config,
    mode: Mode,
    lib_type: LibType,
    features: &FeatureOptions,
    env: &Environment,
    host: HostOs,
) -> (r: Result<AndroidStep, PackageError>)
    ensures
        step_result_view(r) == decision(
            current_crate@,
            opt_archs_view(*architectures),
            opt_str_view(build_target),
            api_level,
            opt_string_view(*package_name),
            config.accept_all,
            mode,
            lib_type,
            features@,
            env@,
            host,
        ),
{
    if env.get("ANDROID_NDK_HOME").is_none() {
        return Err(PackageError::NdkHomeNotSet);
    }
    let lib_name = match current_crate.library_name() {
        Ok(name) => name,
        Err(e) => {
            return Err(e);
        },
    };
    let crate_name = to_lowercase(current_crate.name.as_str());
    let default_package_name = String::from_str("com.").concat(crate_name.as_str()).concat(
        ".",
    ).concat(crate_name.as_str());
    let package_name = match package_name {
        Some(given) => given.clone(),
        None => match prompt_package_name(default_package_name.as_str(), config.accept_all) {
            NamePrompt::Decided(name) => name,
            NamePrompt::Ask { default } => {
                return Ok(AndroidStep::AskPackageName { default });
            },
        },
    };
    let architectures: Vec<AndroidArch> = match architectures {
        Some(given) => copy_archs(given),
        None => match prompt_architectures(config.accept_all) {
            SelectionPrompt::Decided(all) => all,
            SelectionPrompt::Ask { items, defaults } => {
                return Ok(AndroidStep::AskArchitectures { items, defaults });
            },
        },
    };
    let mut warnings: Vec<String> = Vec::new();
    if lib_type == LibType::Static {
        warnings.push(
            String::from_str(
                "Building as static library for Android is unusual. Dynamic libraries (.so) are typically used.",
            ),
        );
    }
    assert(warnings.deep_view() =~= warnings_for(lib_type));
    let targets = match resolve_targets(&architectures, build_target, api_level) {
        Ok(targets) => targets,
        Err(e) => {
            return Err(e);
        },
    };
    let builds = match plan_builds(&targets, mode, features, env, host) {
        Ok(builds) => builds,
        Err(e) => {
            return Err(e);
        },
    };
    Ok(
        AndroidStep::Build(
            AndroidPackagePlan { crate_name: lib_name, package_name, warnings, targets, builds },
        ),
    )
}

/// Once the builds of the first targets fail, the builds of all targets
/// fail in the same way.
pub proof fn lemma_builds_fail_for_good(
    targets: Seq<AndroidTargetView>,
    k: int,
    env: Seq<(Seq<char>, Seq<char>)>,
    host: HostOs,
    mode: Mode,
    features: FeatureOptionsView,
)
    requires
        0 <= k <= targets.len(),
        builds_of(targets.take(k), env, host, mode, features) is Err,
    ensures
        builds_of(targets, env, host, mode, features) == builds_of(
            targets.take(k),
            env,
            host,
            mode,
            features,
        ),
    decreases targets.len() - k,
{
    if k < targets.len() {
        assert(targets.drop_last().take(k) =~= targets.take(k));
        lemma_builds_fail_for_good(targets.drop_last(), k, env, host, mode, features);
    } else {
        assert(targets.take(k) =~= targets);
    }
}


/// The work for one crate: what to announce before it starts, and its
/// first step or the reason why it cannot be built.
#[derive(Debug, PartialEq, Eq)]
pub struct AndroidJob {
    pub announcement: Option<String>,
    pub first: Result<AndroidStep, PackageError>,
}

pub ghost struct AndroidJobView {
    pub announcement: Option<Seq<char>>,
    pub first: Result<AndroidStepView, PackageErrorView>,
}

impl View for AndroidJob {
    type V = AndroidJobView;

    open spec fn view(&self) -> AndroidJobView {
        AndroidJobView {
            announcement: opt_string_view(self.announcement),
            first: step_result_view(self.first),
        }
    }
}

/// The views of a list of jobs, in order.
pub open spec fn jobs_view(jobs: Seq<AndroidJob>) -> Seq<AndroidJobView> {
    jobs.map_values(|j: AndroidJob| j@)
}

/// What is announced before one of several crates is packaged.
pub open spec fn announcement_for(crate_name: Seq<char>) -> Seq<char> {
    "Packaging crate "@ + crate_name
}

/// One announced job per crate, each under the crate's default package
/// name.
pub open spec fn announced_jobs(
    crates: Seq<CrateInfoView>,
    architectures: Option<Seq<AndroidArch>>,
    build_target: Option<Seq<char>>,
    api_level: u32,
    accept_all: bool,
    mode: Mode,
    lib_type: LibType,
    features: FeatureOptionsView,
    env: Seq<(Seq<char>, Seq<char>)>,
    host: HostOs,
) -> Seq<AndroidJobView> {
    Seq::new(
        crates.len(),
        |i: int|
            AndroidJobView {
                announcement: Some(announcement_for(crates[i].name)),
                first: decision(
                    crates[i],
                    architectures,
                    build_target,
                    api_level,
                    None,
                    accept_all,
                    mode,
                    lib_type,
                    features,
                    env,
                    host,
                ),
            },
    )
}

/// The jobs for the crates in scope. Without a crate there is nothing to
/// build. A single crate is built as asked. Several crates are each built
/// under their own default name, so a package name given for all of them
/// is refused; every crate gets its job, whether or not an earlier one can
/// be built.
pub open spec fn jobs_for(
    crates: Seq<CrateInfoView>,
    architectures: Option<Seq<AndroidArch>>,
    build_target: Option<Seq<char>>,
    api_level: u32,
    package_name: Option<Seq<char>>,
    accept_all: bool,
    mode: Mode,
    lib_type: LibType,
    features: FeatureOptionsView,
    env: Seq<(Seq<char>, Seq<char>)>,
    host: HostOs,
) -> Result<Seq<AndroidJobView>, PackageErrorView> {
    if crates.len() == 0 {
        Err(PackageErrorView::NotInCrate)
    } else if crates.len() == 1 {
        Ok(
            seq![
                AndroidJobView {
                    announcement: None,
                    first: decision(
                        crates[0],
                        architectures,
                        build_target,
                        api_level,
                        package_name,
                        accept_all,
                        mode,
                        lib_type,
                        features,
                        env,
                        host,
                    ),
                },
            ],
        )
    } else if package_name is Some {
        Err(PackageErrorView::PackageNameForSeveralCrates)
    } else {
        Ok(
            announced_jobs(
                crates,
                architectures,
                build_target,
                api_level,
                accept_all,
                mode,
                lib_type,
                features,
                env,
                host,
            ),
        )
    }
}

/// The view of the outcome of planning all crates.
pub open spec fn jobs_result_view(r: Result<Vec<AndroidJob>, PackageError>) -> Result<
    Seq<AndroidJobView>,
    PackageErrorView,
> {
    match r {
        Ok(jobs) => Ok(jobs_view(jobs@)),
        Err(e) => Err(e@),
    }
}

/// Plans the Android packages of the crates in scope: one job per crate,
/// each with its first step.
pub fn build_android_package(
    crates: &Vec<CrateInfo>,
    architectures: &Option<Vec<AndroidArch>>,
    build_target: Option<&str>,
    api_level: u32,
    package_name: &Option<String>,
    config: &Config,
    mode: Mode,
    lib_type: LibType,
    features: &FeatureOptions,
    env: &Environment,
    host: HostOs,
) -> (r: Result<Vec<AndroidJob>, PackageError>)
    ensures
        jobs_result_view(r) == jobs_for(
            crates_view(crates@),
            opt_archs_view(*architectures),
            opt_str_view(build_target),
            api_level,
            opt_string_view(*package_name),
            config.accept_all,
            mode,
            lib_type,
            features@,
            env@,
            host,
        ),
{
    if crates.len() == 0 {
        return Err(PackageError::NotInCrate);
    }
    if crates.len() == 1 {
        let first = build_android_package_for_crate(
            &crates[0],
            architectures,
            build_target,
            api_level,
            package_name,
            config,
            mode,
            lib_type,
            features,
            env,
            host,
        );
        let jobs = vec![AndroidJob { announcement: None, first }];
        assert(jobs_view(jobs@) =~= seq![jobs@[0]@]);
        return Ok(jobs);
    } else if package_name.is_some() {
        return Err(PackageError::PackageNameForSeveralCrates);
    }
    let ghost goal = announced_jobs(
        crates_view(crates@),
        opt_archs_view(*architectures),
        opt_str_view(build_target),
        api_level,
        config.accept_all,
        mode,
        lib_type,
        features@,
        env@,
        host,
    );
    let mut jobs: Vec<AndroidJob> = Vec::new();
    let no_name: Option<String> = None;
    assert(jobs_view(jobs@) =~= goal.take(0));
    for i in 0..crates.len()
        invariant
            crates@.len() > 1,
            no_name is None,
            goal == announced_jobs(
                crates_view(crates@),
                opt_archs_view(*architectures),
                opt_str_view(build_target),
                api_level,
                config.accept_all,
                mode,
                lib_type,
                features@,
                env@,
                host,
            ),
            jobs_view(jobs@) == goal.take(i as int),
    {
        let first = build_android_package_for_crate(
            &crates[i],
            architectures,
            build_target,
            api_level,
            &no_name,
            config,
            mode,
            lib_type,
            features,
            env,
            host,
        );
        let job = AndroidJob {
            announcement: Some(
                String::from_str("Packaging crate ").concat(crates[i].name.as_str()),
            ),
            first,
        };
        let ghost before = jobs@;
        jobs.push(job);
        proof {
            assert(crates_view(crates@)[i as int] == crates@[i as int]@);
            assert(jobs_view(jobs@) =~= jobs_view(before).push(job@));
            assert(jobs_view(jobs@) =~= goal.take(i + 1));
        }
    }
    proof {
        assert(goal.take(crates@.len() as int) =~= goal);
    }
    Ok(jobs)
}

/// Resolution is a function of the selection, the filter and the API
/// level: whatever two runs on the same input return, they return the same
/// targets, with the same triples and display names, or the same error.
pub proof fn lemma_resolution_is_deterministic(
    archs: Seq<AndroidArch>,
    build_target: Option<Seq<char>>,
    api_level: u32,
    first: Result<Seq<AndroidTargetView>, PackageErrorView>,
    second: Result<Seq<AndroidTargetView>, PackageErrorView>,
)
    requires
        first == resolution(archs, build_target, api_level),
        second == resolution(archs, build_target, api_level),
    ensures
        first == second,
        first matches Ok(a) ==> second matches Ok(b) && a.len() == b.len() && forall|i: int|
            0 <= i < a.len() ==> a[i].architectures == b[i].architectures && a[i].display_name
                == b[i].display_name && a[i].ndk_arch == b[i].ndk_arch,
{
}

/// An empty selection is refused, whatever the filter.
pub proof fn lemma_empty_selection_is_refused(build_target: Option<Seq<char>>, api_level: u32)
    ensures
        resolution(Seq::empty(), build_target, api_level) == Err::<
            Seq<AndroidTargetView>,
            PackageErrorView,
        >(PackageErrorView::NoArchitectureSelected),
{
}

/// The filter keeps every target that is built for the requested triple
/// and nothing else; without a filter it keeps every target.
pub proof fn lemma_filter_keeps_the_selected(
    targets: Seq<AndroidTargetView>,
    build_target: Option<Seq<char>>,
)
    ensures
        matching(targets, build_target).len() <= targets.len(),
        forall|i: int|
            0 <= i < matching(targets, build_target).len() ==> selected(
                #[trigger] matching(targets, build_target)[i],
                build_target,
            ) && targets.contains(matching(targets, build_target)[i]),
        forall|j: int|
            0 <= j < targets.len() && selected(#[trigger] targets[j], build_target) ==> matching(
                targets,
                build_target,
            ).contains(targets[j]),
        build_target is None ==> matching(targets, build_target) == targets,
    decreases targets.len(),
{
    if targets.len() > 0 {
        let earlier = targets.drop_last();
        let kept = matching(earlier, build_target);
        let all = matching(targets, build_target);
        lemma_filter_keeps_the_selected(earlier, build_target);
        assert forall|i: int| 0 <= i < all.len() implies selected(#[trigger] all[i], build_target)
            && targets.contains(all[i]) by {
            if i < kept.len() {
                assert(all[i] == kept[i]);
                assert(earlier.contains(kept[i]));
                let k = choose|k: int| 0 <= k < earlier.len() && earlier[k] == kept[i];
                assert(targets[k] == kept[i]);
            } else {
                assert(all[i] == targets.last());
                assert(targets[targets.len() - 1] == targets.last());
            }
        }
        assert forall|j: int|
            0 <= j < targets.len() && selected(#[trigger] targets[j], build_target) implies all.contains(
            targets[j],
        ) by {
            if j < earlier.len() {
                assert(earlier[j] == targets[j]);
                assert(kept.contains(earlier[j]));
                let k = choose|k: int| 0 <= k < kept.len() && kept[k] == earlier[j];
                assert(all[k] == targets[j]);
            } else {
                assert(all[all.len() - 1] == targets[j]);
            }
        }
        if build_target is None {
            assert(all =~= targets);
        }
    }
}

/// A filter that no target of the selection passes is refused, and the
/// error names the requested triple. A filter that some target passes is
/// never refused.
pub proof fn lemma_unmatched_filter_is_refused(
    archs: Seq<AndroidArch>,
    triple: Seq<char>,
    api_level: u32,
)
    requires
        archs.len() > 0,
    ensures
        (forall|j: int|
            0 <= j < expand(archs, api_level).len() ==> !(#[trigger] expand(
                archs,
                api_level,
            )[j]).architectures.contains(triple)) <==> resolution(archs, Some(triple), api_level)
            == Err::<Seq<AndroidTargetView>, PackageErrorView>(
            PackageErrorView::NoMatchingBuildTarget { build_target: triple },
        ),
{
    let all = expand(archs, api_level);
    let kept = matching(all, Some(triple));
    lemma_filter_keeps_the_selected(all, Some(triple));
    if forall|j: int| 0 <= j < all.len() ==> !(#[trigger] all[j]).architectures.contains(triple) {
        if kept.len() > 0 {
            assert(selected(kept[0], Some(triple)));
            assert(all.contains(kept[0]));
            let k = choose|k: int| 0 <= k < all.len() && all[k] == kept[0];
            assert(!all[k].architectures.contains(triple));
        }
    } else {
        let j = choose|j: int| 0 <= j < all.len() && (#[trigger] all[j]).architectures.contains(triple);
        assert(selected(all[j], Some(triple)));
        assert(kept.contains(all[j]));
    }
}

/// Without the variable that locates the NDK nothing is planned for a
/// crate: no question, no preparation and no command.
pub proof fn lemma_without_ndk_nothing_is_planned(
    current_crate: CrateInfoView,
    architectures: Option<Seq<AndroidArch>>,
    build_target: Option<Seq<char>>,
    api_level: u32,
    package_name: Option<Seq<char>>,
    accept_all: bool,
    mode: Mode,
    lib_type: LibType,
    features: FeatureOptionsView,
    env: Seq<(Seq<char>, Seq<char>)>,
    host: HostOs,
)
    requires
        lookup(env, "ANDROID_NDK_HOME"@) is None,
    ensures
        decision(
            current_crate,
            architectures,
            build_target,
            api_level,
            package_name,
            accept_all,
            mode,
            lib_type,
            features,
            env,
            host,
        ) == Err::<AndroidStepView, PackageErrorView>(PackageErrorView::NdkHomeNotSet),
{
}


/// Where the NDK is located before the first build, every target gets its
/// build: one build per target, in the order of the targets, and the NDK
/// is still located where it was after the last preparation.
pub proof fn lemma_every_target_is_built(
    targets: Seq<AndroidTargetView>,
    env: Seq<(Seq<char>, Seq<char>)>,
    host: HostOs,
    mode: Mode,
    features: FeatureOptionsView,
)
    requires
        lookup(env, "ANDROID_NDK_HOME"@) is Some,
    ensures
        builds_of(targets, env, host, mode, features) matches Ok(planned) && planned.0.len()
            == targets.len() && lookup(planned.1, "ANDROID_NDK_HOME"@) == lookup(
            env,
            "ANDROID_NDK_HOME"@,
        ) && forall|i: int|
            0 <= i < targets.len() ==> (#[trigger] planned.0[i]).target == targets[i].display_name,
    decreases targets.len(),
{
    if targets.len() > 0 {
        let earlier = targets.drop_last();
        lemma_every_target_is_built(earlier, env, host, mode, features);
        let (builds, before) = builds_of(earlier, env, host, mode, features)->Ok_0;
        let ndk_home = lookup(before, "ANDROID_NDK_HOME"@)->Some_0;
        crate::android::android_target::lemma_setup_keeps_home_and_ndk(
            targets.last(),
            before,
            ndk_home,
            host,
        );
        let build = build_of(targets.last(), before, ndk_home, host, mode, features);
        assert(build.setup == setup_steps(targets.last(), before, ndk_home, host)
            && build.target == targets.last().display_name) by {
            reveal(build_of);
        }
        let all = builds.push(build);
        assert forall|i: int| 0 <= i < targets.len() implies (#[trigger] all[i]).target
            == targets[i].display_name by {
            if i < earlier.len() {
                assert(all[i] == builds[i]);
                assert(earlier[i] == targets[i]);
            }
        }
    }
}

} // verus!
