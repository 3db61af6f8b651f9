//! Planning the build of a Swift package: which crates to build, what to
//! ask the user, which targets the selected platforms stand for, and the
//! build steps of each target.

use vstd::prelude::*;
use vstd::string::*;
use crate::apple::apple_target::{
    all_platforms,
    apple_target_of,
    is_experimental,
    lemma_universal_iff_several_triples,
    platform_display_name,
    platform_targets,
    targets_view,
    ApplePlatform,
    AppleTarget,
    AppleTargetView,
};
use crate::common::command::{set_env_on_all, with_env_on_all};
use crate::common::error::{PackageError, PackageErrorView};
use crate::common::metadata::{crates_view, CrateInfo, CrateInfoView};
use crate::common::models::{Config, FeatureOptions, FeatureOptionsView, LibType, Mode};
use crate::common::text::{lowercase, str_eq, to_lowercase, to_upper_camel, upper_camel_case, opt_str_view, opt_string_view};
use crate::console::prompt::{
    name_prompt,
    selection_prompt,
    NamePrompt,
    SelectionPrompt,
};
use crate::console::step::{
    build_steps_view,
    lemma_push_build_step,
    BuildStep,
    BuildStepView,
};

verus! {

/// Everything that is known before the build of one crate starts.
#[derive(Debug, PartialEq, Eq)]
pub struct SwiftPackagePlan {
    /// The name under which the library is linked.
    pub crate_name: String,
    /// The name of the Swift package.
    pub package_name: String,
    /// What to tell the user before the build. Nothing here stops the build.
    pub warnings: Vec<String>,
    /// The targets to build, in the order of the selection.
    pub targets: Vec<AppleTarget>,
    /// One build step per target, in the order of the targets.
    pub builds: Vec<BuildStep>,
}

pub ghost struct SwiftPackagePlanView {
    pub crate_name: Seq<char>,
    pub package_name: Seq<char>,
    pub warnings: Seq<Seq<char>>,
    pub targets: Seq<AppleTargetView>,
    pub builds: Seq<BuildStepView>,
}

impl View for SwiftPackagePlan {
    type V = SwiftPackagePlanView;

    open spec fn view(&self) -> SwiftPackagePlanView {
        SwiftPackagePlanView {
            crate_name: self.crate_name@,
            package_name: self.package_name@,
            warnings: self.warnings.deep_view(),
            targets: targets_view(self.targets@),
            builds: build_steps_view(self.builds@),
        }
    }
}

/// What has to happen next for one crate.
#[derive(Debug, PartialEq, Eq)]
pub enum SwiftStep {
    /// Ask the user for the package name, offering a default.
    AskPackageName { default: String },
    /// Ask the user for the platforms. `items` names every platform in the
    /// order of `ApplePlatform::all`; `defaults` marks the preselected ones.
    AskPlatforms { items: Vec<String>, defaults: Vec<bool> },
    /// Everything is decided: carry out the plan.
    Build(SwiftPackagePlan),
}

pub ghost enum SwiftStepView {
    AskPackageName { default: Seq<char> },
    AskPlatforms { items: Seq<Seq<char>>, defaults: Seq<bool> },
    Build(SwiftPackagePlanView),
}

impl View for SwiftStep {
    type V = SwiftStepView;

    open spec fn view(&self) -> SwiftStepView {
        match self {
            SwiftStep::AskPackageName { default } => SwiftStepView::AskPackageName {
                default: default@,
            },
            SwiftStep::AskPlatforms { items, defaults } => SwiftStepView::AskPlatforms {
                items: items.deep_view(),
                defaults: defaults@,
            },
            SwiftStep::Build(plan) => SwiftStepView::Build(plan@),
        }
    }
}

/// The view of the outcome of a decision.
pub open spec fn step_result_view(r: Result<SwiftStep, PackageError>) -> Result<
    SwiftStepView,
    PackageErrorView,
> {
    match r {
        Ok(step) => Ok(step@),
        Err(e) => Err(e@),
    }
}

/// What is said where a dynamic library is asked for.
pub open spec fn dynamic_warning() -> Seq<char> {
    "Building as dynamic library is discouraged. It might prevent apps that use this library from publishing to the App Store."@
}

/// The warnings that go with a library type. A dynamic library is unusual
/// on Apple platforms; it is built all the same.
pub open spec fn warnings_for(lib_type: LibType) -> Seq<Seq<char>> {
    match lib_type {
        LibType::Dynamic => seq![dynamic_warning()],
        LibType::Static => Seq::empty(),
    }
}

/// The package name offered for a crate.
pub open spec fn default_package_name(crate_name: Seq<char>) -> Seq<char> {
    upper_camel_case(lowercase(crate_name))
}

/// The names under which the platforms are offered.
pub open spec fn platform_items() -> Seq<Seq<char>> {
    all_platforms().map_values(|p: ApplePlatform| platform_display_name(p))
}

/// The platforms that are preselected: those that are not experimental.
pub open spec fn platform_defaults() -> Seq<bool> {
    all_platforms().map_values(|p: ApplePlatform| !is_experimental(p))
}

/// The targets of all variants of one platform.
pub open spec fn variant_targets(platform: ApplePlatform) -> Seq<AppleTargetView> {
    platform_targets(platform).map_values(|v| apple_target_of(v))
}

/// The targets of a selection of platforms: for each platform in turn, the
/// targets of its variants.
pub open spec fn expand(platforms: Seq<ApplePlatform>) -> Seq<AppleTargetView>
    decreases platforms.len(),
{
    if platforms.len() == 0 {
        Seq::empty()
    } else {
        expand(platforms.drop_last()) + variant_targets(platforms.last())
    }
}

/// Whether a target passes the filter: without a filter every target does,
/// with one only a target that is built for the requested triple.
pub open spec fn selected(target: AppleTargetView, build_target: Option<Seq<char>>) -> bool {
    match build_target {
        None => true,
        Some(triple) => target.architectures.contains(triple),
    }
}

/// The targets that pass the filter, in their order.
pub open spec fn matching(targets: Seq<AppleTargetView>, build_target: Option<Seq<char>>) -> Seq<
    AppleTargetView,
>
    decreases targets.len(),
{
    if targets.len() == 0 {
        Seq::empty()
    } else if selected(targets.last(), build_target) {
        matching(targets.drop_last(), build_target).push(targets.last())
    } else {
        matching(targets.drop_last(), build_target)
    }
}

/// The targets to build for a selection of platforms and an optional
/// filter. An empty selection is an error, and so is a filter that no
/// target passes.
pub open spec fn resolution(platforms: Seq<ApplePlatform>, build_target: Option<Seq<char>>) -> Result<
    Seq<AppleTargetView>,
    PackageErrorView,
> {
    if platforms.len() == 0 {
        Err(PackageErrorView::NoPlatformSelected)
    } else {
        let kept = matching(expand(platforms), build_target);
        match build_target {
            Some(triple) if kept.len() == 0 => Err(
                PackageErrorView::NoMatchingBuildTarget { build_target: triple },
            ),
            _ => Ok(kept),
        }
    }
}

/// The build step of one target: its commands, each with coloured output
/// switched on.
pub open spec fn build_step_of(
    target: AppleTargetView,
    target_dir: Seq<char>,
    lib_name: Seq<char>,
    mode: Mode,
    lib_type: LibType,
    features: FeatureOptionsView,
) -> BuildStepView {
    BuildStepView {
        title: "Building target "@ + target.display_name,
        commands: with_env_on_all(
            target.command_plan(target_dir, lib_name, mode, lib_type, features),
            "CARGO_TERM_COLOR"@,
            "always"@,
        ),
    }
}

/// The decision for one crate. In this order: a crate without a library
/// target is refused; a missing package name is asked for, or defaulted
/// where all defaults are accepted; missing platforms likewise; then the
/// targets are resolved and the plan is made.
pub open spec fn decision(
    current_crate: CrateInfoView,
    platforms: Option<Seq<ApplePlatform>>,
    build_target: Option<Seq<char>>,
    package_name: Option<Seq<char>>,
    accept_all: bool,
    mode: Mode,
    lib_type: LibType,
    features: FeatureOptionsView,
    target_dir: Seq<char>,
) -> Result<SwiftStepView, PackageErrorView> {
    match current_crate.library_name() {
        None => Err(PackageErrorView::NoLibraryTarget),
        Some(lib_name) => {
            if package_name is None && !accept_all {
                Ok(
                    SwiftStepView::AskPackageName {
                        default: default_package_name(current_crate.name),
                    },
                )
            } else if platforms is None && !accept_all {
                Ok(
                    SwiftStepView::AskPlatforms {
                        items: platform_items(),
                        defaults: platform_defaults(),
                    },
                )
            } else {
                let name = match package_name {
                    Some(given) => given,
                    None => default_package_name(current_crate.name),
                };
                let chosen = match platforms {
                    Some(given) => given,
                    None => all_platforms(),
                };
                match resolution(chosen, build_target) {
                    Err(e) => Err(e),
                    Ok(targets) => Ok(
                        SwiftStepView::Build(
                            SwiftPackagePlanView {
                                crate_name: lib_name,
                                package_name: name,
                                warnings: warnings_for(lib_type),
                                targets,
                                builds: targets.map_values(
                                    |t: AppleTargetView|
                                        build_step_of(
                                            t,
                                            target_dir,
                                            lib_name,
                                            mode,
                                            lib_type,
                                            features,
                                        ),
                                ),
                            },
                        ),
                    ),
                }
            }
        },
    }
}

/// The view of an optional selection of platforms.
pub open spec fn opt_platforms_view(p: Option<Vec<ApplePlatform>>) -> Option<Seq<ApplePlatform>> {
    match p {
        Some(list) => Some(list@),
        None => None,
    }
}

/// Whether a target is built for the requested triple, or no triple was
/// requested.
pub fn target_matches(target: &AppleTarget, build_target: Option<&str>) -> (r: bool)
    ensures
        r == selected(target@, opt_str_view(build_target)),
{
    match build_target {
        None => true,
        Some(triple) => {
            let ghost all = target@.architectures;
            for i in 0..target.architectures.len()
                invariant
                    build_target == Some(triple),
                    all == target@.architectures,
                    forall|j: int| 0 <= j < i ==> all[j] != triple@,
            {
                assert(all[i as int] == target.architectures@[i as int]@);
                if str_eq(target.architectures[i], triple) {
                    assert(all[i as int] == triple@);
                    return true;
                }
            }
            false
        },
    }
}

/// Pushing a target onto a list pushes its view onto the list's view.
pub proof fn lemma_push_target(targets: Seq<AppleTarget>, t: AppleTarget)
    ensures
        targets_view(targets.push(t)) == targets_view(targets).push(t@),
{
    assert(targets_view(targets.push(t)) =~= targets_view(targets).push(t@));
}

/// Turns a selection of platforms into the targets to build, in the order
/// of the selection, and keeps of them those that are built for
/// `build_target` where one is given.
pub fn resolve_targets(platforms: &Vec<ApplePlatform>, build_target: Option<&str>) -> (r: Result<
    Vec<AppleTarget>,
    PackageError,
>)
    ensures
        match r {
            Ok(targets) => resolution(platforms@, opt_str_view(build_target)) == Ok::<
                Seq<AppleTargetView>,
                PackageErrorView,
            >(targets_view(targets@)) && forall|i: int|
                0 <= i < targets@.len() ==> (#[trigger] targets@[i])@.locatable(),
            Err(e) => resolution(platforms@, opt_str_view(build_target)) == Err::<
                Seq<AppleTargetView>,
                PackageErrorView,
            >(e@),
        },
{
    if platforms.len() == 0 {
        return Err(PackageError::NoPlatformSelected);
    }
    let ghost filter = opt_str_view(build_target);
    let mut kept: Vec<AppleTarget> = Vec::new();
    assert(targets_view(kept@) =~= matching(expand(platforms@.take(0)), filter));
    for i in 0..platforms.len()
        invariant
            filter == opt_str_view(build_target),
            targets_view(kept@) == matching(expand(platforms@.take(i as int)), filter),
            forall|k: int| 0 <= k < kept@.len() ==> (#[trigger] kept@[k])@.locatable(),
    {
        let variants = platforms[i].into_apple_platform_target();
        let ghost before = expand(platforms@.take(i as int));
        let ghost added = variant_targets(platforms@[i as int]);
        proof {
            assert(platforms@.take(i + 1).drop_last() =~= platforms@.take(i as int));
            assert(before + added.take(0) =~= before);
        }
        for j in 0..variants.len()
            invariant
                filter == opt_str_view(build_target),
                variants@ == platform_targets(platforms@[i as int]),
                added == variant_targets(platforms@[i as int]),
                targets_view(kept@) == matching(before + added.take(j as int), filter),
                forall|k: int| 0 <= k < kept@.len() ==> (#[trigger] kept@[k])@.locatable(),
        {
            let target = variants[j].target();
            proof {
                let so_far = before + added.take(j as int);
                let next = before + added.take(j + 1);
                assert(next.drop_last() =~= so_far);
                assert(next.last() == target@);
                lemma_universal_iff_several_triples(variants@[j as int]);
                lemma_push_target(kept@, target);
            }
            if target_matches(&target, build_target) {
                kept.push(target);
            }
        }
        proof {
            assert(added.take(variants@.len() as int) =~= added);
        }
    }
    proof {
        assert(platforms@.take(platforms@.len() as int) =~= platforms@);
    }
    match build_target {
        Some(triple) => {
            if kept.len() == 0 {
                return Err(
                    PackageError::NoMatchingBuildTarget { build_target: String::from_str(triple) },
                );
            }
        },
        None => {},
    }
    Ok(kept)
}

/// The package name to use when none was given: the default at once where
/// all defaults are accepted, else a question with the default on offer.
/// The default is the crate's name in upper camel case.
pub fn prompt_package_name(crate_name: &str, accept_all: bool) -> (r: NamePrompt)
    ensures
        r@ == name_prompt(upper_camel_case(crate_name@), accept_all),
{
    let default = to_upper_camel(crate_name);
    if accept_all {
        NamePrompt::Decided(default)
    } else {
        NamePrompt::Ask { default }
    }
}

/// The platforms to build when none were given: all of them where all
/// defaults are accepted, else a question that offers every platform by
/// its display name and preselects those that are not experimental.
pub fn prompt_platforms(accept_all: bool) -> (r: SelectionPrompt<ApplePlatform>)
    ensures
        r@ == selection_prompt(all_platforms(), platform_items(), platform_defaults(), accept_all),
{
    let platforms = ApplePlatform::all();
    if accept_all {
        let list = vec![platforms[0], platforms[1], platforms[2], platforms[3], platforms[4]];
        assert(list@ =~= all_platforms());
        return SelectionPrompt::Decided(list);
    }
    let mut items: Vec<String> = Vec::new();
    let mut defaults: Vec<bool> = Vec::new();
    for i in 0..5usize
        invariant
            platforms@ == all_platforms(),
            items.deep_view() == platform_items().take(i as int),
            defaults@ == platform_defaults().take(i as int),
    {
        let ghost before = items;
        let name = platforms[i].display_name();
        items.push(name);
        defaults.push(!platforms[i].is_experimental());
        proof {
            crate::common::text::lemma_push_string(before, items, name);
            assert(items.deep_view() =~= platform_items().take(i + 1));
            assert(defaults@ =~= platform_defaults().take(i + 1));
        }
    }
    proof {
        assert(platform_items().take(5) =~= platform_items());
        assert(platform_defaults().take(5) =~= platform_defaults());
    }
    SelectionPrompt::Ask { items, defaults }
}

/// The platforms at the chosen positions of `ApplePlatform::all`, in the
/// order in which they were chosen.
pub fn chosen_platforms(chosen: &Vec<usize>) -> (r: Vec<ApplePlatform>)
    requires
        forall|i: int| 0 <= i < chosen@.len() ==> chosen@[i] < 5,
    ensures
        r@.len() == chosen@.len(),
        forall|i: int| 0 <= i < chosen@.len() ==> r@[i] == all_platforms()[chosen@[i] as int],
{
    let platforms = ApplePlatform::all();
    let mut out: Vec<ApplePlatform> = Vec::new();
    for i in 0..chosen.len()
        invariant
            platforms@ == all_platforms(),
            forall|k: int| 0 <= k < chosen@.len() ==> chosen@[k] < 5,
            out@.len() == i,
            forall|k: int| 0 <= k < i ==> out@[k] == all_platforms()[chosen@[k] as int],
    {
        out.push(platforms[chosen[i]]);
    }
    out
}

fn copy_platforms(list: &Vec<ApplePlatform>) -> (r: Vec<ApplePlatform>)
    ensures
        r@ == list@,
{
    let mut out: Vec<ApplePlatform> = Vec::new();
    for i in 0..list.len()
        invariant
            out@ == list@.take(i as int),
    {
        out.push(list[i]);
        assert(out@ =~= list@.take(i + 1));
    }
    assert(list@.take(list@.len() as int) =~= list@);
    out
}

/// The build step of one target: all its commands, each with coloured
/// output switched on, under a title that names the target.
pub fn build_with_output(
    target: &AppleTarget,
    target_dir: &str,
    lib_name: &str,
    mode: Mode,
    lib_type: LibType,
    features: &FeatureOptions,
) -> (r: BuildStep)
    requires
        lib_type == LibType::Dynamic ==> target@.locatable(),
    ensures
        r@ == build_step_of(target@, target_dir@, lib_name@, mode, lib_type, features@),
{
    let mut commands = target.commands(target_dir, lib_name, mode, lib_type, features);
    set_env_on_all(&mut commands, "CARGO_TERM_COLOR", "always");
    BuildStep {
        title: String::from_str("Building target ").concat(target.display_name()),
        commands,
    }
}

/// Decides what happens next for one crate: a question to the user, the
/// plan of its build, or the reason why it cannot be built.
pub fn build_swift_package_for_crate(
    current_crate: &CrateInfo,
    platforms: &Option<Vec<ApplePlatform>>,
    build_target: Option<&str>,
    package_name: &Option<String>,
    config: &Config,
    mode: Mode,
    lib_type: LibType,
    features: &FeatureOptions,
    target_dir: &str,
) -> (r: Result<SwiftStep, PackageError>)
    ensures
        step_result_view(r) == decision(
            current_crate@,
            opt_platforms_view(*platforms),
            opt_str_view(build_target),
            opt_string_view(*package_name),
            config.accept_all,
            mode,
            lib_type,
            features@,
            target_dir@,
        ),
{
    let lib_name = match current_crate.library_name() {
        Ok(name) => name,
        Err(e) => {
            return Err(e);
        },
    };
    let crate_name = to_lowercase(current_crate.name.as_str());
    let package_name = match package_name {
        Some(given) => given.clone(),
        None => match prompt_package_name(crate_name.as_str(), config.accept_all) {
            NamePrompt::Decided(name) => name,
            NamePrompt::Ask { default } => {
                return Ok(SwiftStep::AskPackageName { default });
            },
        },
    };
    let chosen: Vec<ApplePlatform> = match platforms {
        Some(given) => copy_platforms(given),
        None => match prompt_platforms(config.accept_all) {
            SelectionPrompt::Decided(all) => all,
            SelectionPrompt::Ask { items, defaults } => {
                return Ok(SwiftStep::AskPlatforms { items, defaults });
            },
        },
    };
    let platforms = chosen;
    let mut warnings: Vec<String> = Vec::new();
    if lib_type == LibType::Dynamic {
        warnings.push(
            String::from_str(
                "Building as dynamic library is discouraged. It might prevent apps that use this library from publishing to the App Store.",
            ),
        );
    }
    assert(warnings.deep_view() =~= warnings_for(lib_type));
    let targets = match resolve_targets(&platforms, build_target) {
        Ok(targets) => targets,
        Err(e) => {
            return Err(e);
        },
    };
    let mut builds: Vec<BuildStep> = Vec::new();
    let ghost goal = targets_view(targets@).map_values(
        |t: AppleTargetView|
            build_step_of(t, target_dir@, lib_name@, mode, lib_type, features@),
    );
    assert(build_steps_view(builds@) =~= goal.take(0));
    for i in 0..targets.len()
        invariant
            goal == targets_view(targets@).map_values(
                |t: AppleTargetView|
                    build_step_of(t, target_dir@, lib_name@, mode, lib_type, features@),
            ),
            forall|k: int| 0 <= k < targets@.len() ==> (#[trigger] targets@[k])@.locatable(),
            build_steps_view(builds@) == goal.take(i as int),
    {
        let step = build_with_output(
            &targets[i],
            target_dir,
            lib_name.as_str(),
            mode,
            lib_type,
            features,
        );
        proof {
            lemma_push_build_step(builds@, step);
        }
        builds.push(step);
        assert(build_steps_view(builds@) =~= goal.take(i + 1));
    }
    proof {
        assert(goal.take(targets@.len() as int) =~= goal);
    }
    Ok(SwiftStep::Build(SwiftPackagePlan { crate_name: lib_name, package_name, warnings, targets, builds }))
}


/// The work for one crate: what to announce before it starts, and its
/// first step or the reason why it cannot be built.
#[derive(Debug, PartialEq, Eq)]
pub struct SwiftJob {
    pub announcement: Option<String>,
    pub first: Result<SwiftStep, PackageError>,
}

pub ghost struct SwiftJobView {
    pub announcement: Option<Seq<char>>,
    pub first: Result<SwiftStepView, PackageErrorView>,
}

impl View for SwiftJob {
    type V = SwiftJobView;

    open spec fn view(&self) -> SwiftJobView {
        SwiftJobView {
            announcement: opt_string_view(self.announcement),
            first: step_result_view(self.first),
        }
    }
}

/// The views of a list of jobs, in order.
pub open spec fn jobs_view(jobs: Seq<SwiftJob>) -> Seq<SwiftJobView> {
    jobs.map_values(|j: SwiftJob| j@)
}

/// What is announced before one of several crates is packaged.
pub open spec fn announcement_for(crate_name: Seq<char>) -> Seq<char> {
    "Packaging crate "@ + crate_name
}

/// One announced job per crate, each under the crate's default package
/// name.
pub open spec fn announced_jobs(
    crates: Seq<CrateInfoView>,
    platforms: Option<Seq<ApplePlatform>>,
    build_target: Option<Seq<char>>,
    accept_all: bool,
    mode: Mode,
    lib_type: LibType,
    features: FeatureOptionsView,
    target_dir: Seq<char>,
) -> Seq<SwiftJobView> {
    Seq::new(
        crates.len(),
        |i: int|
            SwiftJobView {
                announcement: Some(announcement_for(crates[i].name)),
                first: decision(
                    crates[i],
                    platforms,
                    build_target,
                    None,
                    accept_all,
                    mode,
                    lib_type,
                    features,
                    target_dir,
                ),
            },
    )
}

/// The jobs for the crates in scope. Without a crate there is nothing to
/// build. A single crate is built as asked. Several crates are each built
/// under their own default name, so a package name given for all of them
/// is refused; every crate gets its job, whether or not an earlier one can
/// be built.
pub open spec fn jobs_for(
    crates: Seq<CrateInfoView>,
    platforms: Option<Seq<ApplePlatform>>,
    build_target: Option<Seq<char>>,
    package_name: Option<Seq<char>>,
    accept_all: bool,
    mode: Mode,
    lib_type: LibType,
    features: FeatureOptionsView,
    target_dir: Seq<char>,
) -> Result<Seq<SwiftJobView>, PackageErrorView> {
    if crates.len() == 0 {
        Err(PackageErrorView::NotInCrate)
    } else if crates.len() == 1 {
        Ok(
            seq![
                SwiftJobView {
                    announcement: None,
                    first: decision(
                        crates[0],
                        platforms,
                        build_target,
                        package_name,
                        accept_all,
                        mode,
                        lib_type,
                        features,
                        target_dir,
                    ),
                },
            ],
        )
    } else if package_name is Some {
        Err(PackageErrorView::PackageNameForSeveralCrates)
    } else {
        Ok(
            announced_jobs(
                crates,
                platforms,
                build_target,
                accept_all,
                mode,
                lib_type,
                features,
                target_dir,
            ),
        )
    }
}

/// The view of the outcome of planning all crates.
pub open spec fn jobs_result_view(r: Result<Vec<SwiftJob>, PackageError>) -> Result<
    Seq<SwiftJobView>,
    PackageErrorView,
> {
    match r {
        Ok(jobs) => Ok(jobs_view(jobs@)),
        Err(e) => Err(e@),
    }
}

/// Plans the Swift packages of the crates in scope: one job per crate,
/// each with its first step.
pub fn build_swift_package(
    crates: &Vec<CrateInfo>,
    platforms: &Option<Vec<ApplePlatform>>,
    build_target: Option<&str>,
    package_name: &Option<String>,
    config: &Config,
    mode: Mode,
    lib_type: LibType,
    features: &FeatureOptions,
    target_dir: &str,
) -> (r: Result<Vec<SwiftJob>, PackageError>)
    ensures
        jobs_result_view(r) == jobs_for(
            crates_view(crates@),
            opt_platforms_view(*platforms),
            opt_str_view(build_target),
            opt_string_view(*package_name),
            config.accept_all,
            mode,
            lib_type,
            features@,
            target_dir@,
        ),
{
    if crates.len() == 0 {
        return Err(PackageError::NotInCrate);
    }
    if crates.len() == 1 {
        let first = build_swift_package_for_crate(
            &crates[0],
            platforms,
            build_target,
            package_name,
            config,
            mode,
            lib_type,
            features,
            target_dir,
        );
        let jobs = vec![SwiftJob { announcement: None, first }];
        assert(jobs_view(jobs@) =~= seq![jobs@[0]@]);
        return Ok(jobs);
    } else if package_name.is_some() {
        return Err(PackageError::PackageNameForSeveralCrates);
    }
    let ghost goal = announced_jobs(
        crates_view(crates@),
        opt_platforms_view(*platforms),
        opt_str_view(build_target),
        config.accept_all,
        mode,
        lib_type,
        features@,
        target_dir@,
    );
    let mut jobs: Vec<SwiftJob> = Vec::new();
    let no_name: Option<String> = None;
    assert(jobs_view(jobs@) =~= goal.take(0));
    for i in 0..crates.len()
        invariant
            crates@.len() > 1,
            no_name is None,
            goal == announced_jobs(
                crates_view(crates@),
                opt_platforms_view(*platforms),
                opt_str_view(build_target),
                config.accept_all,
                mode,
                lib_type,
                features@,
                target_dir@,
            ),
            jobs_view(jobs@) == goal.take(i as int),
    {
        let first = build_swift_package_for_crate(
            &crates[i],
            platforms,
            build_target,
            &no_name,
            config,
            mode,
            lib_type,
            features,
            target_dir,
        );
        let job = SwiftJob {
            announcement: Some(
                String::from_str("Packaging crate ").concat(crates[i].name.as_str()),
            ),
            first,
        };
        let ghost before = jobs@;
        jobs.push(job);
        proof {
            assert(crates_view(crates@)[i as int] == crates@[i as int]@);
            assert(jobs_view(jobs@) =~= jobs_view(before).push(job@));
            assert(jobs_view(jobs@) =~= goal.take(i + 1));
        }
    }
    proof {
        assert(goal.take(crates@.len() as int) =~= goal);
    }
    Ok(jobs)
}


/// Resolution is a function of the selection and the filter: whatever two
/// runs on the same selection and filter return, they return the same
/// targets, with the same triples, display names and universal names, or
/// the same error.
pub proof fn lemma_resolution_is_deterministic(
    platforms: Seq<ApplePlatform>,
    build_target: Option<Seq<char>>,
    first: Result<Seq<AppleTargetView>, PackageErrorView>,
    second: Result<Seq<AppleTargetView>, PackageErrorView>,
)
    requires
        first == resolution(platforms, build_target),
        second == resolution(platforms, build_target),
    ensures
        first == second,
        first matches Ok(a) ==> second matches Ok(b) && a.len() == b.len() && forall|i: int|
            0 <= i < a.len() ==> a[i].architectures == b[i].architectures && a[i].display_name
                == b[i].display_name && a[i].universal_name == b[i].universal_name,
{
}

/// An empty selection is refused, whatever the filter.
pub proof fn lemma_empty_selection_is_refused(build_target: Option<Seq<char>>)
    ensures
        resolution(Seq::empty(), build_target) == Err::<Seq<AppleTargetView>, PackageErrorView>(
            PackageErrorView::NoPlatformSelected,
        ),
{
}

/// The filter keeps every target that is built for the requested triple
/// and nothing else; without a filter it keeps every target.
pub proof fn lemma_filter_keeps_the_selected(
    targets: Seq<AppleTargetView>,
    build_target: Option<Seq<char>>,
)
    ensures
        matching(targets, build_target).len() <= targets.len(),
        forall|i: int|
            0 <= i < matching(targets, build_target).len() ==> selected(
                #[trigger] matching(targets, build_target)[i],
                build_target,
            ) && targets.contains(matching(targets, build_target)[i]),
        forall|j: int|
            0 <= j < targets.len() && selected(#[trigger] targets[j], build_target) ==> matching(
                targets,
                build_target,
            ).contains(targets[j]),
        build_target is None ==> matching(targets, build_target) == targets,
    decreases targets.len(),
{
    if targets.len() > 0 {
        let earlier = targets.drop_last();
        let kept = matching(earlier, build_target);
        let all = matching(targets, build_target);
        lemma_filter_keeps_the_selected(earlier, build_target);
        assert forall|i: int| 0 <= i < all.len() implies selected(#[trigger] all[i], build_target)
            && targets.contains(all[i]) by {
            if i < kept.len() {
                assert(all[i] == kept[i]);
                assert(earlier.contains(kept[i]));
                let k = choose|k: int| 0 <= k < earlier.len() && earlier[k] == kept[i];
                assert(targets[k] == kept[i]);
            } else {
                assert(all[i] == targets.last());
                assert(targets[targets.len() - 1] == targets.last());
            }
        }
        assert forall|j: int|
            0 <= j < targets.len() && selected(#[trigger] targets[j], build_target) implies all.contains(
            targets[j],
        ) by {
            if j < earlier.len() {
                assert(earlier[j] == targets[j]);
                assert(kept.contains(earlier[j]));
                let k = choose|k: int| 0 <= k < kept.len() && kept[k] == earlier[j];
                assert(all[k] == targets[j]);
            } else {
                assert(all[all.len() - 1] == targets[j]);
            }
        }
        if build_target is None {
            assert(all =~= targets);
        }
    }
}

/// A filter that no target of the selection passes is refused, and the
/// error names the requested triple. A filter that some target passes is
/// never refused.
pub proof fn lemma_unmatched_filter_is_refused(platforms: Seq<ApplePlatform>, triple: Seq<char>)
    requires
        platforms.len() > 0,
    ensures
        (forall|j: int|
            0 <= j < expand(platforms).len() ==> !(#[trigger] expand(
                platforms,
            )[j]).architectures.contains(triple)) <==> resolution(platforms, Some(triple)) == Err::<
            Seq<AppleTargetView>,
            PackageErrorView,
        >(PackageErrorView::NoMatchingBuildTarget { build_target: triple }),
{
    let all = expand(platforms);
    let kept = matching(all, Some(triple));
    lemma_filter_keeps_the_selected(all, Some(triple));
    if forall|j: int| 0 <= j < all.len() ==> !(#[trigger] all[j]).architectures.contains(triple) {
        if kept.len() > 0 {
            assert(selected(kept[0], Some(triple)));
            assert(all.contains(kept[0]));
            let k = choose|k: int| 0 <= k < all.len() && all[k] == kept[0];
            assert(!all[k].architectures.contains(triple));
        }
    } else {
        let j = choose|j: int| 0 <= j < all.len() && (#[trigger] all[j]).architectures.contains(triple);
        assert(selected(all[j], Some(triple)));
        assert(kept.contains(all[j]));
    }
}

} // verus!
