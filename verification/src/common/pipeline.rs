//! The order of the stages of packaging one crate: every target is built,
//! then the bindings are generated once, then the package is made. A stage
//! that fails ends the run.

use vstd::prelude::*;

verus! {

/// What is packaged.
#[derive(Clone, Copy, Debug, PartialEq, Eq, Structural)]
pub enum Flavor {
    /// A Swift package around a framework bundle.
    Swift,
    /// An Android archive.
    Android,
}

/// One stage of packaging.
#[derive(Clone, Copy, Debug, PartialEq, Eq, Structural)]
pub enum Stage {
    /// Build the target at this position of the plan.
    Build { index: usize },
    /// Generate the bindings from the library of the first target.
    GenerateBindings,
    /// Empty the output directory of the package.
    RecreateOutput,
    /// Bundle the libraries of all targets into a framework.
    Bundle,
    /// Lay out the package around what was built and generated.
    Package,
}

/// The position of a stage in a run that builds `builds` targets.
pub open spec fn rank(flavor: Flavor, stage: Stage, builds: nat) -> nat {
    match stage {
        Stage::Build { index } => index as nat,
        Stage::GenerateBindings => builds,
        Stage::RecreateOutput => builds + 1,
        Stage::Bundle => builds + 2,
        Stage::Package => match flavor {
            Flavor::Swift => builds + 3,
            Flavor::Android => builds + 1,
        },
    }
}

/// Whether a stage belongs to a run: a build is one of the planned builds,
/// and only a Swift package has an output directory to empty and a
/// framework to bundle.
pub open spec fn in_run(flavor: Flavor, stage: Stage, builds: nat) -> bool {
    match stage {
        Stage::Build { index } => index < builds,
        Stage::RecreateOutput | Stage::Bundle => flavor == Flavor::Swift,
        _ => true,
    }
}

/// The stage a run starts with: the first build, or the generation of the
/// bindings where nothing is built.
pub open spec fn first(builds: nat) -> Stage {
    if builds > 0 {
        Stage::Build { index: 0 }
    } else {
        Stage::GenerateBindings
    }
}

/// The stage that follows a stage that succeeded, if any.
pub open spec fn following(flavor: Flavor, stage: Stage, builds: nat) -> Option<Stage> {
    match stage {
        Stage::Build { index } => if index + 1 < builds {
            Some(Stage::Build { index: (index + 1) as usize })
        } else {
            Some(Stage::GenerateBindings)
        },
        Stage::GenerateBindings => match flavor {
            Flavor::Swift => Some(Stage::RecreateOutput),
            Flavor::Android => Some(Stage::Package),
        },
        Stage::RecreateOutput => Some(Stage::Bundle),
        Stage::Bundle => Some(Stage::Package),
        Stage::Package => None,
    }
}

/// What comes after a stage: nothing after a failure, else the stage that
/// follows.
pub open spec fn after(flavor: Flavor, stage: Stage, builds: nat, succeeded: bool) -> Option<
    Stage,
> {
    if succeeded {
        following(flavor, stage, builds)
    } else {
        None
    }
}

/// The stage to start with in a run of `builds` builds.
pub fn first_stage(builds: usize) -> (r: Stage)
    ensures
        r == first(builds as nat),
{
    if builds > 0 {
        Stage::Build { index: 0 }
    } else {
        Stage::GenerateBindings
    }
}

/// The stage to go on with after `stage` has ended, or nothing where the
/// run is over: after the last stage, and after any stage that failed.
pub fn next_stage(flavor: Flavor, stage: Stage, builds: usize, succeeded: bool) -> (r: Option<
    Stage,
>)
    ensures
        r == after(flavor, stage, builds as nat, succeeded),
{
    if !succeeded {
        return None;
    }
    match stage {
        Stage::Build { index } => {
            if index < usize::MAX && index + 1 < builds {
                Some(Stage::Build { index: index + 1 })
            } else {
                Some(Stage::GenerateBindings)
            }
        },
        Stage::GenerateBindings => match flavor {
            Flavor::Swift => Some(Stage::RecreateOutput),
            Flavor::Android => Some(Stage::Package),
        },
        Stage::RecreateOutput => Some(Stage::Bundle),
        Stage::Bundle => Some(Stage::Package),
        Stage::Package => None,
    }
}

/// A run goes through its stages in order and leaves none out: the run
/// starts at the first position, every stage is followed by the stage at
/// the next position, and only the last stage is followed by none. After a
/// failure nothing follows.
pub proof fn lemma_stages_run_in_order(flavor: Flavor, stage: Stage, builds: nat)
    requires
        in_run(flavor, stage, builds),
        builds <= usize::MAX,
    ensures
        rank(flavor, first(builds), builds) == 0,
        in_run(flavor, first(builds), builds),
        after(flavor, stage, builds, false) is None,
        match after(flavor, stage, builds, true) {
            Some(next) => in_run(flavor, next, builds) && rank(flavor, next, builds) == rank(
                flavor,
                stage,
                builds,
            ) + 1,
            None => stage == Stage::Package,
        },
{
}

} // verus!
