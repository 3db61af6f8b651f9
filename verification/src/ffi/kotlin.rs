//! The files around the generation of Kotlin bindings: which library the
//! generator reads, its configuration, and where its output is collected
//! from.

use vstd::prelude::*;
use vstd::string::*;
use crate::android::aar::{package_path, package_path_spec};
use crate::android::android_target::{
    library_file_name,
    library_file_name_spec,
    AndroidTarget,
    AndroidTargetView,
};
use crate::android::package::targets_view;
use crate::common::error::{PackageError, PackageErrorView};
use crate::common::models::{mode_name, LibType, Mode};
use crate::common::staging::{
    found_view,
    listing_view,
    push_stage,
    stage_view,
    FoundFile,
    FoundFileView,
    ListedEntry,
    ListedEntryView,
    StageStep,
    StageStepView,
};
use crate::common::text::{has_extension, has_extension_spec};

verus! {

/// The library that the generator reads: the one built for the first
/// triple of the first target. Without a target, or without a triple in
/// it, there is none.
pub open spec fn bindings_library(
    targets: Seq<AndroidTargetView>,
    target_dir: Seq<char>,
    lib_name: Seq<char>,
    mode: Mode,
    lib_type: LibType,
) -> Result<Seq<char>, PackageErrorView> {
    if targets.len() == 0 {
        Err(
            PackageErrorView::Failed {
                message: "Could not generate UniFFI bindings: No target architecture selected!"@,
            },
        )
    } else if targets[0].architectures.len() == 0 {
        Err(
            PackageErrorView::Failed {
                message: "No architectures found for the selected target"@,
            },
        )
    } else {
        Ok(
            target_dir + "/"@ + targets[0].architectures[0] + "/"@ + mode_name(mode) + "/"@
                + library_file_name_spec(lib_name, lib_type),
        )
    }
}

/// The configuration that tells the generator the name of the package.
pub open spec fn generator_config_spec(package_name: Seq<char>) -> Seq<char> {
    "[bindings.kotlin]\npackage_name = \""@ + package_name + "\"\n"@
}

/// The steps before generation: the output directory is emptied, the
/// directory for Kotlin sources is created in it, and the configuration
/// of the generator is written.
pub open spec fn prepare_steps(package_name: Seq<char>) -> Seq<StageStepView> {
    seq![
        StageStepView::RecreateDir { path: "./generated"@ },
        StageStepView::CreateDir { path: "./generated/kotlin"@ },
        StageStepView::WriteFile {
            path: "./generated/uniffi.toml"@,
            content: generator_config_spec(package_name),
            context: None,
        },
    ]
}

/// The directory in which the sources of a package are collected.
pub open spec fn package_dir_spec(package_name: Seq<char>) -> Seq<char> {
    "./generated/kotlin/"@ + package_path_spec(package_name)
}

/// The directory into which the generator is expected to write the
/// sources of a package.
pub open spec fn expected_dir_spec(package_name: Seq<char>) -> Seq<char> {
    "./generated/"@ + package_path_spec(package_name)
}

/// The steps that copy the Kotlin sources among the entries of a
/// directory into the package directory, in the order of the listing.
pub open spec fn listed_copies(
    listing: Seq<ListedEntryView>,
    dir: Seq<char>,
    package_dir: Seq<char>,
) -> Seq<StageStepView>
    decreases listing.len(),
{
    if listing.len() == 0 {
        Seq::empty()
    } else {
        let earlier = listed_copies(listing.drop_last(), dir, package_dir);
        if has_extension_spec(listing.last().name, "kt"@) {
            earlier.push(
                StageStepView::CopyFile {
                    from: dir + "/"@ + listing.last().name,
                    to: package_dir + "/"@ + listing.last().name,
                    context: None,
                },
            )
        } else {
            earlier
        }
    }
}

/// The steps that copy found files into the package directory, each under
/// its own file name, in the order in which they were found.
pub open spec fn found_copies(found: Seq<FoundFileView>, package_dir: Seq<char>) -> Seq<
    StageStepView,
> {
    found.map_values(
        |f: FoundFileView|
            StageStepView::CopyFile {
                from: f.path,
                to: package_dir + "/"@ + f.file_name,
                context: None,
            },
    )
}

/// The steps after generation. The package directory is created. Where
/// the expected directory exists, the Kotlin sources in it are collected
/// and nothing else is looked at. Where it is missing, the Kotlin sources
/// directly in the output directory are collected; only if there are
/// none, every Kotlin source found anywhere below the output directory is.
pub open spec fn collect_steps(
    package_name: Seq<char>,
    expected: Option<Seq<ListedEntryView>>,
    root: Seq<ListedEntryView>,
    anywhere: Seq<FoundFileView>,
) -> Seq<StageStepView> {
    let package_dir = package_dir_spec(package_name);
    let create = seq![StageStepView::CreateDirAll { path: package_dir, context: None }];
    match expected {
        Some(listing) => create + listed_copies(
            listing,
            expected_dir_spec(package_name),
            package_dir,
        ),
        None => {
            let from_root = listed_copies(root, "./generated"@, package_dir);
            if from_root.len() > 0 {
                create + from_root
            } else {
                create + found_copies(anywhere, package_dir)
            }
        },
    }
}

/// Where Kotlin sources are searched for as a last resort.
pub open spec fn anywhere_pattern() -> Seq<char> {
    "./generated/**/*.kt"@
}

/// What is reported where the library to read does not exist.
pub open spec fn missing_library_spec(lib_path: Seq<char>) -> PackageErrorView {
    PackageErrorView::Failed { message: "Library file does not exist: "@ + lib_path }
}

/// What is reported where generation fails for a reason.
pub open spec fn generation_failure_spec(cause: Seq<char>) -> PackageErrorView {
    PackageErrorView::Failed {
        message: "Could not generate UniFFI bindings for Kotlin due to the following error: \n "@
            + cause,
    }
}

/// The view of an outcome that is a text or a failure.
pub open spec fn text_result_view(r: Result<String, PackageError>) -> Result<
    Seq<char>,
    PackageErrorView,
> {
    match r {
        Ok(text) => Ok(text@),
        Err(e) => Err(e@),
    }
}

/// The view of an optional listing.
pub open spec fn opt_listing_view(listing: Option<Vec<ListedEntry>>) -> Option<
    Seq<ListedEntryView>,
> {
    match listing {
        Some(entries) => Some(listing_view(entries@)),
        None => None,
    }
}

/// The path of the library that the generator reads.
pub fn generate_kotlin_bindings_with_output(
    targets: &Vec<AndroidTarget>,
    target_dir: &str,
    lib_name: &str,
    mode: Mode,
    lib_type: LibType,
) -> (r: Result<String, PackageError>)
    ensures
        text_result_view(r) == bindings_library(
            targets_view(targets@),
            target_dir@,
            lib_name@,
            mode,
            lib_type,
        ),
{
    let lib_file = library_file_name(lib_name, lib_type);
    if targets.len() == 0 {
        return Err(
            PackageError::Failed {
                message: String::from_str(
                    "Could not generate UniFFI bindings: No target architecture selected!",
                ),
            },
        );
    }
    let archs = &targets[0].architectures;
    if archs.len() == 0 {
        return Err(
            PackageError::Failed {
                message: String::from_str("No architectures found for the selected target"),
            },
        );
    }
    assert(targets_view(targets@)[0].architectures[0] == archs@[0]@);
    Ok(
        String::from_str(target_dir).concat("/").concat(archs[0]).concat("/").concat(
            mode.as_str(),
        ).concat("/").concat(lib_file.as_str()),
    )
}

/// The steps to carry out before the generator runs.
pub fn prepare_generated_dir(package_name: &str) -> (steps: Vec<StageStep>)
    ensures
        stage_view(steps@) == prepare_steps(package_name@),
{
    let mut steps: Vec<StageStep> = Vec::new();
    assert(stage_view(steps@) =~= Seq::empty());
    push_stage(&mut steps, StageStep::RecreateDir { path: String::from_str("./generated") });
    push_stage(&mut steps, StageStep::CreateDir { path: String::from_str("./generated/kotlin") });
    push_stage(
        &mut steps,
        StageStep::WriteFile {
            path: String::from_str("./generated/uniffi.toml"),
            content: String::from_str("[bindings.kotlin]\npackage_name = \"").concat(
                package_name,
            ).concat("\"\n"),
            context: None,
        },
    );
    assert(stage_view(steps@) =~= prepare_steps(package_name@));
    steps
}

/// The directory into which the generator is expected to write.
pub fn expected_package_dir(package_name: &str) -> (r: String)
    ensures
        r@ == expected_dir_spec(package_name@),
{
    String::from_str("./generated/").concat(package_path(package_name).as_str())
}

/// Appends the copies of the Kotlin sources of a listing.
fn copy_listed(steps: &mut Vec<StageStep>, listing: &Vec<ListedEntry>, dir: &str, package_dir: &str)
    ensures
        stage_view(final(steps)@) == stage_view(old(steps)@) + listed_copies(
            listing_view(listing@),
            dir@,
            package_dir@,
        ),
{
    let ghost head = stage_view(steps@);
    let ghost listed = listing_view(listing@);
    assert(listed.take(0) =~= Seq::empty());
    assert(head + listed_copies(listed.take(0), dir@, package_dir@) =~= head);
    for i in 0..listing.len()
        invariant
            listed == listing_view(listing@),
            stage_view(steps@) == head + listed_copies(listed.take(i as int), dir@, package_dir@),
    {
        let entry = &listing[i];
        proof {
            assert(listed.take(i + 1).drop_last() =~= listed.take(i as int));
            assert(listed.take(i + 1).last() == entry@);
        }
        if has_extension(entry.name.as_str(), "kt") {
            push_stage(
                steps,
                StageStep::CopyFile {
                    from: String::from_str(dir).concat("/").concat(entry.name.as_str()),
                    to: String::from_str(package_dir).concat("/").concat(entry.name.as_str()),
                    context: None,
                },
            );
            assert(stage_view(steps@) =~= head + listed_copies(
                listed.take(i as int),
                dir@,
                package_dir@,
            ).push(
                StageStepView::CopyFile {
                    from: dir@ + "/"@ + entry@.name,
                    to: package_dir@ + "/"@ + entry@.name,
                    context: None,
                },
            ));
        }
    }
    proof {
        assert(listed.take(listing@.len() as int) =~= listed);
    }
}

/// Whether the sources have to be searched for below the output directory:
/// only where the expected directory is missing and the output directory
/// itself holds no Kotlin source.
pub fn search_is_needed(expected: &Option<Vec<ListedEntry>>, root: &Vec<ListedEntry>) -> (r: bool)
    ensures
        r == (expected is None && listed_copies(
            listing_view(root@),
            "./generated"@,
            Seq::empty(),
        ).len() == 0),
{
    match expected {
        Some(_) => false,
        None => {
            let mut probe: Vec<StageStep> = Vec::new();
            assert(stage_view(probe@) =~= Seq::empty());
            copy_listed(&mut probe, root, "./generated", "");
            assert(stage_view(probe@) =~= listed_copies(
                listing_view(root@),
                "./generated"@,
                ""@,
            ));
            proof {
                reveal_strlit("");
                assert(""@ =~= Seq::<char>::empty());
            }
            probe.len() == 0
        },
    }
}

/// The number of copies does not depend on where the copies go.
pub proof fn lemma_copies_count(
    listing: Seq<ListedEntryView>,
    dir: Seq<char>,
    first: Seq<char>,
    second: Seq<char>,
)
    ensures
        listed_copies(listing, dir, first).len() == listed_copies(listing, dir, second).len(),
    decreases listing.len(),
{
    if listing.len() > 0 {
        lemma_copies_count(listing.drop_last(), dir, first, second);
    }
}

/// The steps to carry out after the generator has run. `expected` is the
/// listing of the directory that `expected_package_dir` names, or nothing
/// where that directory is missing; `root` is the listing of the output
/// directory, looked at only where `expected` is nothing; `anywhere` are
/// all Kotlin sources below the output directory, looked at only where
/// `search_is_needed`.
pub fn generate_kotlin_bindings(
    package_name: &str,
    expected: &Option<Vec<ListedEntry>>,
    root: &Vec<ListedEntry>,
    anywhere: &Vec<FoundFile>,
) -> (steps: Vec<StageStep>)
    ensures
        stage_view(steps@) == collect_steps(
            package_name@,
            opt_listing_view(*expected),
            listing_view(root@),
            found_view(anywhere@),
        ),
{
    let package_dir = String::from_str("./generated/kotlin/").concat(
        package_path(package_name).as_str(),
    );
    let mut steps: Vec<StageStep> = Vec::new();
    assert(stage_view(steps@) =~= Seq::empty());
    push_stage(&mut steps, StageStep::CreateDirAll { path: package_dir.clone(), context: None });
    let ghost create = stage_view(steps@);
    match expected {
        Some(listing) => {
            let dir = expected_package_dir(package_name);
            copy_listed(&mut steps, listing, dir.as_str(), package_dir.as_str());
        },
        None => {
            copy_listed(&mut steps, root, "./generated", package_dir.as_str());
            if steps.len() == 1 {
                let ghost goal = found_copies(found_view(anywhere@), package_dir@);
                assert(stage_view(steps@) =~= create + goal.take(0));
                for i in 0..anywhere.len()
                    invariant
                        goal == found_copies(found_view(anywhere@), package_dir@),
                        stage_view(steps@) == create + goal.take(i as int),
                {
                    push_stage(
                        &mut steps,
                        StageStep::CopyFile {
                            from: anywhere[i].path.clone(),
                            to: package_dir.clone().concat("/").concat(
                                anywhere[i].file_name.as_str(),
                            ),
                            context: None,
                        },
                    );
                    assert(stage_view(steps@) =~= create + goal.take(i + 1));
                }
                proof {
                    assert(goal.take(anywhere@.len() as int) =~= goal);
                }
            }
        },
    }
    steps
}

/// What follows from looking for the library that the generator reads:
/// generation goes on where the library exists, and fails with its path
/// where it does not.
pub fn library_outcome(lib_path: &str, exists: bool) -> (r: Result<(), PackageError>)
    ensures
        exists <==> r is Ok,
        r matches Err(e) ==> e@ == missing_library_spec(lib_path@),
{
    if exists {
        Ok(())
    } else {
        Err(missing_library(lib_path))
    }
}

/// The failure to report where the library to read does not exist.
pub fn missing_library(lib_path: &str) -> (r: PackageError)
    ensures
        r@ == missing_library_spec(lib_path@),
{
    PackageError::Failed {
        message: String::from_str("Library file does not exist: ").concat(lib_path),
    }
}

/// The failure to report where generation fails.
pub fn generation_failure(cause: &str) -> (r: PackageError)
    ensures
        r@ == generation_failure_spec(cause@),
{
    PackageError::Failed {
        message: String::from_str(
            "Could not generate UniFFI bindings for Kotlin due to the following error: \n ",
        ).concat(cause),
    }
}

} // verus!
