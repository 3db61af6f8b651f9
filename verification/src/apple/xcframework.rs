//! The framework bundle: the invocation of the platform's bundling tool
//! that pairs every built library with the generated headers.

use vstd::prelude::*;
use vstd::string::*;
use crate::apple::apple_target::{targets_view, AppleTarget, AppleTargetView};
use crate::common::command::{Invocation, InvocationView};
use crate::common::error::{PackageError, PackageErrorView};
use crate::common::models::{LibType, Mode};

verus! {

/// The arguments that name the library of each target, each followed by
/// the directory of the headers, in the order of the targets.
pub open spec fn library_args(
    targets: Seq<AppleTargetView>,
    target_dir: Seq<char>,
    lib_name: Seq<char>,
    headers: Seq<char>,
    mode: Mode,
    lib_type: LibType,
) -> Seq<Seq<char>>
    decreases targets.len(),
{
    if targets.len() == 0 {
        Seq::empty()
    } else {
        library_args(targets.drop_last(), target_dir, lib_name, headers, mode, lib_type) + seq![
            "-library"@,
            targets.last().library_path(target_dir, lib_name, mode, lib_type),
            "-headers"@,
            headers,
        ]
    }
}

/// Where the bundle is written.
pub open spec fn framework_path(output_dir: Seq<char>, xcframework_name: Seq<char>) -> Seq<char> {
    output_dir + "/"@ + xcframework_name + ".xcframework"@
}

/// The invocation of the bundling tool.
pub open spec fn xcodebuild(
    targets: Seq<AppleTargetView>,
    target_dir: Seq<char>,
    lib_name: Seq<char>,
    xcframework_name: Seq<char>,
    generated_dir: Seq<char>,
    output_dir: Seq<char>,
    mode: Mode,
    lib_type: LibType,
) -> InvocationView {
    InvocationView {
        program: "xcodebuild"@,
        args: seq!["-create-xcframework"@] + library_args(
            targets,
            target_dir,
            lib_name,
            generated_dir + "/headers"@,
            mode,
            lib_type,
        ) + seq!["-output"@, framework_path(output_dir, xcframework_name)],
        envs: Seq::empty(),
    }
}

/// What is reported where the bundling tool ends without success: its
/// error output, word for word, behind a fixed introduction.
pub open spec fn bundling_failure_spec(stderr: Seq<char>) -> PackageErrorView {
    PackageErrorView::Failed {
        message: "Failed to create XCFramework due to the following error: \n xcodebuild command failed: "@
            + stderr,
    }
}

/// The step that makes the bundle: what is shown while it runs, and the
/// invocation of the bundling tool.
#[derive(Debug, PartialEq, Eq)]
pub struct XcframeworkPlan {
    pub title: String,
    pub command: Invocation,
}

/// The invocation of the bundling tool for the libraries of the targets.
pub fn create_xcframework(
    targets: &Vec<AppleTarget>,
    target_dir: &str,
    lib_name: &str,
    xcframework_name: &str,
    generated_dir: &str,
    output_dir: &str,
    mode: Mode,
    lib_type: LibType,
) -> (r: Invocation)
    requires
        forall|k: int| 0 <= k < targets@.len() ==> (#[trigger] targets@[k])@.locatable(),
    ensures
        r@ == xcodebuild(
            targets_view(targets@),
            target_dir@,
            lib_name@,
            xcframework_name@,
            generated_dir@,
            output_dir@,
            mode,
            lib_type,
        ),
{
    let headers = String::from_str(generated_dir).concat("/headers");
    let framework = String::from_str(output_dir).concat("/").concat(xcframework_name).concat(
        ".xcframework",
    );
    let mut xcodebuild = Invocation::new(String::from_str("xcodebuild"), Vec::new());
    let ghost start = xcodebuild@;
    xcodebuild.arg("-create-xcframework");
    let ghost all = targets_view(targets@);
    assert(all.take(0) =~= Seq::empty());
    assert(xcodebuild@.args =~= seq!["-create-xcframework"@] + library_args(
        all.take(0),
        target_dir@,
        lib_name@,
        headers@,
        mode,
        lib_type,
    ));
    for i in 0..targets.len()
        invariant
            all == targets_view(targets@),
            forall|k: int| 0 <= k < targets@.len() ==> (#[trigger] targets@[k])@.locatable(),
            xcodebuild@.program == "xcodebuild"@,
            xcodebuild@.envs == Seq::<(Seq<char>, Seq<char>)>::empty(),
            xcodebuild@.args == seq!["-create-xcframework"@] + library_args(
                all.take(i as int),
                target_dir@,
                lib_name@,
                headers@,
                mode,
                lib_type,
            ),
    {
        proof {
            assert(all.take(i + 1).drop_last() =~= all.take(i as int));
            assert(all.take(i + 1).last() == targets@[i as int]@);
        }
        let ghost so_far = xcodebuild@.args;
        let lib = targets[i].library_path(target_dir, lib_name, mode, lib_type);
        xcodebuild.arg("-library");
        xcodebuild.arg(lib.as_str());
        xcodebuild.arg("-headers");
        xcodebuild.arg(headers.as_str());
        assert(xcodebuild@.args =~= so_far + seq!["-library"@, lib@, "-headers"@, headers@]);
        assert(xcodebuild@.args =~= seq!["-create-xcframework"@] + library_args(
            all.take(i + 1),
            target_dir@,
            lib_name@,
            headers@,
            mode,
            lib_type,
        ));
    }
    proof {
        assert(all.take(targets@.len() as int) =~= all);
    }
    let ghost listed = xcodebuild@.args;
    xcodebuild.arg("-output");
    xcodebuild.arg(framework.as_str());
    assert(xcodebuild@.args =~= listed + seq!["-output"@, framework@]);
    xcodebuild
}

/// The step that makes the bundle inside the package directory, from the
/// headers under `./generated`.
pub fn create_xcframework_with_output(
    targets: &Vec<AppleTarget>,
    target_dir: &str,
    lib_name: &str,
    package_name: &str,
    xcframework_name: &str,
    mode: Mode,
    lib_type: LibType,
) -> (r: XcframeworkPlan)
    requires
        forall|k: int| 0 <= k < targets@.len() ==> (#[trigger] targets@[k])@.locatable(),
    ensures
        r.title@ == "Creating XCFramework..."@,
        r.command@ == xcodebuild(
            targets_view(targets@),
            target_dir@,
            lib_name@,
            xcframework_name@,
            "./generated"@,
            package_name@,
            mode,
            lib_type,
        ),
{
    XcframeworkPlan {
        title: String::from_str("Creating XCFramework..."),
        command: create_xcframework(
            targets,
            target_dir,
            lib_name,
            xcframework_name,
            "./generated",
            package_name,
            mode,
            lib_type,
        ),
    }
}

/// What follows from a run of the bundling tool: success where it ended
/// with success, else the failure that holds its error output.
pub fn bundling_outcome(success: bool, stderr: &str) -> (r: Result<(), PackageError>)
    ensures
        success <==> r is Ok,
        r matches Err(e) ==> e@ == bundling_failure_spec(stderr@),
{
    if success {
        Ok(())
    } else {
        Err(bundling_failure(stderr))
    }
}

/// The failure to report where the bundling tool ends without success.
pub fn bundling_failure(stderr: &str) -> (r: PackageError)
    ensures
        r@ == bundling_failure_spec(stderr@),
{
    PackageError::Failed {
        message: String::from_str(
            "Failed to create XCFramework due to the following error: \n xcodebuild command failed: ",
        ).concat(stderr),
    }
}

} // verus!
