//! The files around the generation of Swift bindings: which library the
//! generator reads, which directories it writes into, and where its output
//! is collected.

use vstd::prelude::*;
use vstd::string::*;
use crate::apple::apple_target::{
    artifact_path,
    library_file_name,
    library_file_name_spec,
    targets_view,
    AppleTarget,
    AppleTargetView,
};
use crate::common::error::{PackageError, PackageErrorView};
use crate::common::models::{LibType, Mode};
use crate::common::staging::{push_stage, stage_view, StageStep, StageStepView};

verus! {

/// The library that the generator reads: the one built for the first
/// triple of the first target. Without a target, or without a triple in
/// it, there is none.
pub open spec fn bindings_library(
    targets: Seq<AppleTargetView>,
    target_dir: Seq<char>,
    lib_name: Seq<char>,
    mode: Mode,
    lib_type: LibType,
) -> Result<Seq<char>, PackageErrorView> {
    if targets.len() == 0 {
        Err(
            PackageErrorView::Failed {
                message: "Could not generate UniFFI bindings: No target platform selected!"@,
            },
        )
    } else if targets[0].architectures.len() == 0 {
        Err(
            PackageErrorView::Failed {
                message: "No architectures found for the selected target"@,
            },
        )
    } else {
        Ok(
            artifact_path(
                target_dir,
                targets[0].architectures[0],
                mode,
                library_file_name_spec(lib_name, lib_type),
            ),
        )
    }
}

/// The steps before generation: the output directory is emptied and the
/// directories for headers and sources are created in it.
pub open spec fn prepare_steps() -> Seq<StageStepView> {
    seq![
        StageStepView::RecreateDir { path: "./generated"@ },
        StageStepView::CreateDir { path: "./generated/headers"@ },
        StageStepView::CreateDir { path: "./generated/sources"@ },
    ]
}

/// The steps that collect the output for one crate: its Swift source goes
/// to the sources, its header to the headers, and its module map is
/// appended to the one module map of all crates.
pub open spec fn collect_crate_steps(crate_name: Seq<char>) -> Seq<StageStepView> {
    let ffi_name = crate_name + "FFI"@;
    seq![
        StageStepView::CopyFile {
            from: "./generated/"@ + crate_name + ".swift"@,
            to: "./generated/sources/"@ + crate_name + ".swift"@,
            context: None,
        },
        StageStepView::CopyFile {
            from: "./generated/"@ + ffi_name + ".h"@,
            to: "./generated/headers/"@ + ffi_name + ".h"@,
            context: None,
        },
        StageStepView::AppendFile {
            from: "./generated/"@ + ffi_name + ".modulemap"@,
            to: "./generated/headers/module.modulemap"@,
        },
    ]
}

/// The collecting steps of all crates, in the order of the crates.
pub open spec fn collect_all_steps(crate_names: Seq<Seq<char>>) -> Seq<StageStepView>
    decreases crate_names.len(),
{
    if crate_names.len() == 0 {
        Seq::empty()
    } else {
        collect_all_steps(crate_names.drop_last()) + collect_crate_steps(crate_names.last())
    }
}

/// The steps after generation: the module map is created, then the output
/// of every crate is collected.
pub open spec fn collect_steps(crate_names: Seq<Seq<char>>) -> Seq<StageStepView> {
    seq![StageStepView::TouchFile { path: "./generated/headers/module.modulemap"@ }]
        + collect_all_steps(crate_names)
}

/// What is reported where generation fails for a reason.
pub open spec fn generation_failure_spec(cause: Seq<char>) -> PackageErrorView {
    PackageErrorView::Failed {
        message: "Could not generate UniFFI bindings for udl files due to the following error: \n "@
            + cause,
    }
}

/// The view of an outcome that is a text or a failure.
pub open spec fn text_result_view(r: Result<String, PackageError>) -> Result<
    Seq<char>,
    PackageErrorView,
> {
    match r {
        Ok(text) => Ok(text@),
        Err(e) => Err(e@),
    }
}

/// The path of the library that the generator reads.
pub fn generate_swift_bindings_with_output(
    targets: &Vec<AppleTarget>,
    target_dir: &str,
    lib_name: &str,
    mode: Mode,
    lib_type: LibType,
) -> (r: Result<String, PackageError>)
    ensures
        text_result_view(r) == bindings_library(
            targets_view(targets@),
            target_dir@,
            lib_name@,
            mode,
            lib_type,
        ),
{
    let lib_file = library_file_name(lib_name, lib_type);
    if targets.len() == 0 {
        return Err(
            PackageError::Failed {
                message: String::from_str(
                    "Could not generate UniFFI bindings: No target platform selected!",
                ),
            },
        );
    }
    let archs = &targets[0].architectures;
    if archs.len() == 0 {
        return Err(
            PackageError::Failed {
                message: String::from_str("No architectures found for the selected target"),
            },
        );
    }
    assert(targets_view(targets@)[0].architectures[0] == archs@[0]@);
    Ok(
        String::from_str(target_dir).concat("/").concat(archs[0]).concat("/").concat(
            mode.as_str(),
        ).concat("/").concat(lib_file.as_str()),
    )
}

/// The steps to carry out before the generator runs.
pub fn prepare_generated_dir() -> (steps: Vec<StageStep>)
    ensures
        stage_view(steps@) == prepare_steps(),
{
    let mut steps: Vec<StageStep> = Vec::new();
    assert(stage_view(steps@) =~= Seq::empty());
    push_stage(&mut steps, StageStep::RecreateDir { path: String::from_str("./generated") });
    push_stage(&mut steps, StageStep::CreateDir { path: String::from_str("./generated/headers") });
    push_stage(&mut steps, StageStep::CreateDir { path: String::from_str("./generated/sources") });
    assert(stage_view(steps@) =~= prepare_steps());
    steps
}

/// The steps to carry out after the generator has run. `crate_names` are
/// the crates that the generator wrote bindings for, in its order.
pub fn generate_swift_bindings(crate_names: &Vec<String>) -> (steps: Vec<StageStep>)
    ensures
        stage_view(steps@) == collect_steps(crate_names.deep_view()),
{
    let mut steps: Vec<StageStep> = Vec::new();
    assert(stage_view(steps@) =~= Seq::empty());
    push_stage(
        &mut steps,
        StageStep::TouchFile { path: String::from_str("./generated/headers/module.modulemap") },
    );
    let ghost head = stage_view(steps@);
    let ghost all = crate_names.deep_view();
    assert(all.take(0) =~= Seq::empty());
    assert(head + collect_all_steps(all.take(0)) =~= head);
    for i in 0..crate_names.len()
        invariant
            all == crate_names.deep_view(),
            stage_view(steps@) == head + collect_all_steps(all.take(i as int)),
    {
        proof {
            assert(all.take(i + 1).drop_last() =~= all.take(i as int));
            assert(all.take(i + 1).last() == crate_names@[i as int]@);
        }
        let ghost so_far = stage_view(steps@);
        let crate_name = crate_names[i].as_str();
        let ffi_name = String::from_str(crate_name).concat("FFI");
        push_stage(
            &mut steps,
            StageStep::CopyFile {
                from: String::from_str("./generated/").concat(crate_name).concat(".swift"),
                to: String::from_str("./generated/sources/").concat(crate_name).concat(".swift"),
                context: None,
            },
        );
        push_stage(
            &mut steps,
            StageStep::CopyFile {
                from: String::from_str("./generated/").concat(ffi_name.as_str()).concat(".h"),
                to: String::from_str("./generated/headers/").concat(ffi_name.as_str()).concat(
                    ".h",
                ),
                context: None,
            },
        );
        push_stage(
            &mut steps,
            StageStep::AppendFile {
                from: String::from_str("./generated/").concat(ffi_name.as_str()).concat(
                    ".modulemap",
                ),
                to: String::from_str("./generated/headers/module.modulemap"),
            },
        );
        assert(stage_view(steps@) =~= so_far + collect_crate_steps(crate_name@));
    }
    proof {
        assert(all.take(crate_names@.len() as int) =~= all);
    }
    steps
}

/// The failure to report where generation fails.
pub fn generation_failure(cause: &str) -> (r: PackageError)
    ensures
        r@ == generation_failure_spec(cause@),
{
    PackageError::Failed {
        message: String::from_str(
            "Could not generate UniFFI bindings for udl files due to the following error: \n ",
        ).concat(cause),
    }
}

} // verus!
