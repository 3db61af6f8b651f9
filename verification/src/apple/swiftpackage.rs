//! The Swift package around the framework bundle: its manifest and its
//! module sources.

use vstd::prelude::*;
use vstd::string::*;
use crate::common::staging::{
    found_view,
    push_stage,
    stage_view,
    FoundFile,
    FoundFileView,
    StageStep,
    StageStepView,
};

verus! {

/// The directory that holds the module sources of a package.
pub open spec fn sources_dir(package_name: Seq<char>) -> Seq<char> {
    package_name + "/Sources/"@ + package_name
}

/// The steps that copy the generated sources into the module directory,
/// each under its own file name, in the order in which they were found.
pub open spec fn copy_steps(package_name: Seq<char>, sources: Seq<FoundFileView>) -> Seq<
    StageStepView,
> {
    sources.map_values(
        |f: FoundFileView|
            StageStepView::CopyFile {
                from: f.path,
                to: sources_dir(package_name) + "/"@ + f.file_name,
                context: Some("Could not copy generated swift source files"@),
            },
    )
}

/// The steps that fill the package directory: the manifest, the module
/// directory, and the generated sources.
pub open spec fn package_steps(
    package_name: Seq<char>,
    manifest: Seq<char>,
    sources: Seq<FoundFileView>,
) -> Seq<StageStepView> {
    seq![
        StageStepView::WriteFile {
            path: package_name + "/Package.swift"@,
            content: manifest,
            context: Some("Could not write Package.swift"@),
        },
        StageStepView::CreateDirAll {
            path: sources_dir(package_name),
            context: Some("Could not create module sources directory"@),
        },
    ] + copy_steps(package_name, sources)
}

/// Where generated Swift sources are searched for.
pub open spec fn sources_pattern() -> Seq<char> {
    "./generated/sources/*.swift"@
}

pub fn generated_sources_pattern() -> (r: &'static str)
    ensures
        r@ == sources_pattern(),
{
    "./generated/sources/*.swift"
}

/// The steps that make a Swift package in the directory of its name, which
/// must exist and hold the framework bundle. `manifest` is the rendered
/// package manifest; `sources` are the generated Swift files that the
/// search for `generated_sources_pattern` found, in its order.
pub fn create_swiftpackage(package_name: &str, manifest: &str, sources: &Vec<FoundFile>) -> (steps:
    Vec<StageStep>)
    ensures
        stage_view(steps@) == package_steps(package_name@, manifest@, found_view(sources@)),
{
    let mut steps: Vec<StageStep> = Vec::new();
    assert(stage_view(steps@) =~= Seq::empty());
    push_stage(
        &mut steps,
        StageStep::WriteFile {
            path: String::from_str(package_name).concat("/Package.swift"),
            content: String::from_str(manifest),
            context: Some(String::from_str("Could not write Package.swift")),
        },
    );
    let module_dir = String::from_str(package_name).concat("/Sources/").concat(package_name);
    push_stage(
        &mut steps,
        StageStep::CreateDirAll {
            path: module_dir.clone(),
            context: Some(String::from_str("Could not create module sources directory")),
        },
    );
    let ghost head = stage_view(steps@);
    let ghost goal = copy_steps(package_name@, found_view(sources@));
    assert(head + goal.take(0) =~= head);
    for i in 0..sources.len()
        invariant
            goal == copy_steps(package_name@, found_view(sources@)),
            module_dir@ == sources_dir(package_name@),
            stage_view(steps@) == head + goal.take(i as int),
    {
        let ghost so_far = stage_view(steps@);
        push_stage(
            &mut steps,
            StageStep::CopyFile {
                from: sources[i].path.clone(),
                to: module_dir.clone().concat("/").concat(sources[i].file_name.as_str()),
                context: Some(String::from_str("Could not copy generated swift source files")),
            },
        );
        assert(stage_view(steps@) =~= head + goal.take(i + 1));
    }
    proof {
        assert(goal.take(sources@.len() as int) =~= goal);
    }
    steps
}

/// The layout of a package together with what is shown for it.
#[derive(Debug, PartialEq, Eq)]
pub struct SwiftPackageLayout {
    /// What is shown while the package is made.
    pub title: String,
    /// The steps that fill the package directory, in order.
    pub steps: Vec<StageStep>,
    /// What is shown once the package is made.
    pub done: String,
}

/// The layout of the package with the texts shown before and after.
pub fn create_package_with_output(package_name: &str, manifest: &str, sources: &Vec<FoundFile>) -> (r:
    SwiftPackageLayout)
    ensures
        r.title@ == "Creating Swift Package '"@ + package_name@ + "'..."@,
        stage_view(r.steps@) == package_steps(package_name@, manifest@, found_view(sources@)),
        r.done@ == "Successfully created Swift Package in '"@ + package_name@ + "/'!"@,
{
    SwiftPackageLayout {
        title: String::from_str("Creating Swift Package '").concat(package_name).concat("'..."),
        steps: create_swiftpackage(package_name, manifest, sources),
        done: String::from_str("Successfully created Swift Package in '").concat(
            package_name,
        ).concat("/'!"),
    }
}

/// The step that empties the output directory of a package: whatever an
/// earlier run left there is removed before anything is written.
pub fn recreate_output_dir(package_name: &str) -> (r: StageStep)
    ensures
        r@ == (StageStepView::RecreateDir { path: "./"@ + package_name@ }),
{
    StageStep::RecreateDir { path: String::from_str("./").concat(package_name) }
}

} // verus!
