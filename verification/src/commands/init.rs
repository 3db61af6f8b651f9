//! Starting a new crate: the files of its skeleton.

use vstd::prelude::*;
use vstd::string::*;
use crate::common::staging::{push_stage, stage_view, StageStep, StageStepView};

verus! {

/// The steps that create the skeleton of a crate in the directory of its
/// name: the directory, the manifest, the source directory and the
/// library root.
pub open spec fn init_steps(name: Seq<char>, cargo_toml: Seq<char>, lib_rs: Seq<char>) -> Seq<
    StageStepView,
> {
    seq![
        StageStepView::CreateDirAll { path: name, context: None },
        StageStepView::WriteFile { path: name + "/Cargo.toml"@, content: cargo_toml, context: None },
        StageStepView::CreateDirAll { path: name + "/src"@, context: None },
        StageStepView::WriteFile { path: name + "/src/lib.rs"@, content: lib_rs, context: None },
    ]
}

/// The steps that create a new crate. `cargo_toml` and `lib_rs` are the
/// rendered texts of its manifest and of its library root.
pub fn init_crate(name: &str, cargo_toml: &str, lib_rs: &str) -> (steps: Vec<StageStep>)
    ensures
        stage_view(steps@) == init_steps(name@, cargo_toml@, lib_rs@),
{
    let mut steps: Vec<StageStep> = Vec::new();
    assert(stage_view(steps@) =~= Seq::empty());
    push_stage(&mut steps, StageStep::CreateDirAll { path: String::from_str(name), context: None });
    push_stage(
        &mut steps,
        StageStep::WriteFile {
            path: String::from_str(name).concat("/Cargo.toml"),
            content: String::from_str(cargo_toml),
            context: None,
        },
    );
    push_stage(
        &mut steps,
        StageStep::CreateDirAll { path: String::from_str(name).concat("/src"), context: None },
    );
    push_stage(
        &mut steps,
        StageStep::WriteFile {
            path: String::from_str(name).concat("/src/lib.rs"),
            content: String::from_str(lib_rs),
            context: None,
        },
    );
    assert(stage_view(steps@) =~= init_steps(name@, cargo_toml@, lib_rs@));
    steps
}

} // verus!
