//! The Android archive: the layout of its staging directory, and the
//! entries of the archive that is made of the staged tree.

use vstd::prelude::*;
use vstd::string::*;
use crate::android::android_target::{AndroidTarget, AndroidTargetView};
use crate::android::package::targets_view;
use crate::common::error::{PackageError, PackageErrorView};
use crate::common::models::{LibType, Mode};
use crate::common::staging::{
    listing_view,
    push_stage,
    stage_view,
    ListedEntry,
    ListedEntryView,
    StageStep,
    StageStepView,
};
use crate::common::text::{has_extension, has_extension_spec, replace_char, replaced};

verus! {

/// A package name as a relative path: every `.` turned into `/`.
pub open spec fn package_path_spec(package_name: Seq<char>) -> Seq<char> {
    replaced(package_name, '.', "/"@)
}

/// Where the generated Kotlin sources of a package are found.
pub open spec fn generated_kotlin_dir_spec(package_name: Seq<char>) -> Seq<char> {
    "./generated/kotlin/"@ + package_path_spec(package_name)
}

/// The rule that exempts every class of the package from code shrinking.
pub open spec fn keep_rule_spec(package_name: Seq<char>) -> Seq<char> {
    "-keep class "@ + package_name + ".** { *; }\n"@
}

/// The name of the archive that is made of a staging directory.
pub open spec fn archive_path_spec(output_dir: Seq<char>) -> Seq<char> {
    output_dir + ".aar"@
}

/// The steps that stage the library of one target: its directory, named
/// by the target's short name, and in it the library under the name that
/// Android loads it by.
pub open spec fn library_steps(
    target: AndroidTargetView,
    target_dir: Seq<char>,
    lib_name: Seq<char>,
    output_dir: Seq<char>,
    mode: Mode,
    lib_type: LibType,
) -> Seq<StageStepView> {
    let arch_dir = output_dir + "/jni/"@ + target.ndk_arch;
    seq![
        StageStepView::CreateDirAll { path: arch_dir, context: None },
        StageStepView::CopyFile {
            from: target.library_path(target_dir, lib_name, mode, lib_type),
            to: arch_dir + "/lib"@ + lib_name + ".so"@,
            context: Some("Failed to copy library for "@ + target.display_name),
        },
    ]
}

/// The library steps of all targets, in the order of the targets.
pub open spec fn all_library_steps(
    targets: Seq<AndroidTargetView>,
    target_dir: Seq<char>,
    lib_name: Seq<char>,
    output_dir: Seq<char>,
    mode: Mode,
    lib_type: LibType,
) -> Seq<StageStepView>
    decreases targets.len(),
{
    if targets.len() == 0 {
        Seq::empty()
    } else {
        all_library_steps(targets.drop_last(), target_dir, lib_name, output_dir, mode, lib_type)
            + library_steps(targets.last(), target_dir, lib_name, output_dir, mode, lib_type)
    }
}

/// Whether a listed entry is a generated Kotlin source.
pub open spec fn is_kotlin_source(entry: ListedEntryView) -> bool {
    entry.is_file && has_extension_spec(entry.name, "kt"@)
}

/// The steps that copy the generated Kotlin sources into the package
/// directory, in the order in which the sources were listed. Whatever else
/// was listed is left where it is.
pub open spec fn source_steps(
    generated: Seq<ListedEntryView>,
    generated_dir: Seq<char>,
    package_dir: Seq<char>,
) -> Seq<StageStepView>
    decreases generated.len(),
{
    if generated.len() == 0 {
        Seq::empty()
    } else {
        let earlier = source_steps(generated.drop_last(), generated_dir, package_dir);
        if is_kotlin_source(generated.last()) {
            earlier.push(
                StageStepView::CopyFile {
                    from: generated_dir + "/"@ + generated.last().name,
                    to: package_dir + "/"@ + generated.last().name,
                    context: None,
                },
            )
        } else {
            earlier
        }
    }
}

/// All steps that lay out the staging directory of the archive: the
/// manifest, one library directory per target, the Kotlin sources under
/// the path of their package, the build properties, the empty resource
/// list, the keep rule and the empty metadata directory.
pub open spec fn aar_steps(
    targets: Seq<AndroidTargetView>,
    target_dir: Seq<char>,
    lib_name: Seq<char>,
    package_name: Seq<char>,
    output_dir: Seq<char>,
    mode: Mode,
    lib_type: LibType,
    manifest: Seq<char>,
    gradle_properties: Seq<char>,
    generated: Seq<ListedEntryView>,
) -> Seq<StageStepView> {
    let package_dir = output_dir + "/kotlin/"@ + package_path_spec(package_name);
    seq![
        StageStepView::CreateDirAll { path: output_dir + "/jni"@, context: None },
        StageStepView::CreateDirAll { path: output_dir + "/manifests"@, context: None },
        StageStepView::WriteFile {
            path: output_dir + "/manifests/AndroidManifest.xml"@,
            content: manifest,
            context: Some("Failed to write AndroidManifest.xml"@),
        },
    ] + all_library_steps(targets, target_dir, lib_name, output_dir, mode, lib_type) + seq![
        StageStepView::CreateDirAll { path: output_dir + "/kotlin"@, context: None },
        StageStepView::CreateDirAll { path: package_dir, context: None },
    ] + source_steps(generated, generated_kotlin_dir_spec(package_name), package_dir) + seq![
        StageStepView::WriteFile {
            path: output_dir + "/gradle.properties"@,
            content: gradle_properties,
            context: Some("Failed to write gradle.properties"@),
        },
        StageStepView::CreateEmptyFile { path: output_dir + "/R.txt"@ },
        StageStepView::WriteFile {
            path: output_dir + "/proguard.txt"@,
            content: keep_rule_spec(package_name),
            context: None,
        },
        StageStepView::CreateDirAll { path: output_dir + "/META-INF"@, context: None },
    ]
}

/// Everything that makes the archive: the staging steps, which start by
/// emptying the staging directory, and the path of the archive to write.
#[derive(Debug, PartialEq, Eq)]
pub struct AarPlan {
    /// What is shown while the archive is made.
    pub title: String,
    /// The staging directory.
    pub output_dir: String,
    /// The steps that lay out the staging directory, in order.
    pub steps: Vec<StageStep>,
    /// The archive to write from the staged tree.
    pub archive_path: String,
}

pub ghost struct AarPlanView {
    pub title: Seq<char>,
    pub output_dir: Seq<char>,
    pub steps: Seq<StageStepView>,
    pub archive_path: Seq<char>,
}

impl View for AarPlan {
    type V = AarPlanView;

    open spec fn view(&self) -> AarPlanView {
        AarPlanView {
            title: self.title@,
            output_dir: self.output_dir@,
            steps: stage_view(self.steps@),
            archive_path: self.archive_path@,
        }
    }
}

/// The plan of an archive named `aar_name`: the staging directory of that
/// name is emptied first, then laid out, and the archive is written beside
/// it.
pub open spec fn aar_plan(
    targets: Seq<AndroidTargetView>,
    target_dir: Seq<char>,
    lib_name: Seq<char>,
    package_name: Seq<char>,
    aar_name: Seq<char>,
    mode: Mode,
    lib_type: LibType,
    manifest: Seq<char>,
    gradle_properties: Seq<char>,
    generated: Seq<ListedEntryView>,
) -> AarPlanView {
    AarPlanView {
        title: "Creating Android AAR package..."@,
        output_dir: aar_name,
        steps: seq![StageStepView::RecreateDir { path: aar_name }] + aar_steps(
            targets,
            target_dir,
            lib_name,
            package_name,
            aar_name,
            mode,
            lib_type,
            manifest,
            gradle_properties,
            generated,
        ),
        archive_path: archive_path_spec(aar_name),
    }
}

/// What is reported where making the archive fails for a reason.
pub open spec fn aar_failure_spec(cause: Seq<char>) -> PackageErrorView {
    PackageErrorView::Failed {
        message: "Failed to create AAR package due to the following error: \n "@ + cause,
    }
}

pub fn package_path(package_name: &str) -> (r: String)
    ensures
        r@ == package_path_spec(package_name@),
{
    replace_char(package_name, '.', "/")
}

/// The directory to list for generated Kotlin sources. Where it does not
/// exist, there are no sources to stage.
pub fn generated_kotlin_dir(package_name: &str) -> (r: String)
    ensures
        r@ == generated_kotlin_dir_spec(package_name@),
{
    String::from_str("./generated/kotlin/").concat(package_path(package_name).as_str())
}

/// The failure to report where making the archive fails.
pub fn aar_failure(cause: &str) -> (r: PackageError)
    ensures
        r@ == aar_failure_spec(cause@),
{
    PackageError::Failed {
        message: String::from_str(
            "Failed to create AAR package due to the following error: \n ",
        ).concat(cause),
    }
}

/// The steps that lay out the staging directory. `manifest` and
/// `gradle_properties` are the rendered texts of the two files; `generated`
/// is the listing of the directory of generated Kotlin sources, in the
/// order in which it was read, and empty where the directory is missing.
pub fn create_aar(
    targets: &Vec<AndroidTarget>,
    target_dir: &str,
    lib_name: &str,
    package_name: &str,
    output_dir: &str,
    mode: Mode,
    lib_type: LibType,
    manifest: &str,
    gradle_properties: &str,
    generated: &Vec<ListedEntry>,
) -> (steps: Vec<StageStep>)
    requires
        forall|k: int| 0 <= k < targets@.len() ==> (#[trigger] targets@[k]).architectures@.len() > 0,
    ensures
        stage_view(steps@) == aar_steps(
            targets_view(targets@),
            target_dir@,
            lib_name@,
            package_name@,
            output_dir@,
            mode,
            lib_type,
            manifest@,
            gradle_properties@,
            listing_view(generated@),
        ),
{
    let mut steps: Vec<StageStep> = Vec::new();
    assert(stage_view(steps@) =~= Seq::empty());
    push_stage(
        &mut steps,
        StageStep::CreateDirAll { path: String::from_str(output_dir).concat("/jni"), context: None },
    );
    push_stage(
        &mut steps,
        StageStep::CreateDirAll {
            path: String::from_str(output_dir).concat("/manifests"),
            context: None,
        },
    );
    push_stage(
        &mut steps,
        StageStep::WriteFile {
            path: String::from_str(output_dir).concat("/manifests/AndroidManifest.xml"),
            content: String::from_str(manifest),
            context: Some(String::from_str("Failed to write AndroidManifest.xml")),
        },
    );
    let ghost head = stage_view(steps@);
    let ghost all_targets = targets_view(targets@);
    assert(all_targets.take(0) =~= Seq::empty());
    assert(head + all_library_steps(
        all_targets.take(0),
        target_dir@,
        lib_name@,
        output_dir@,
        mode,
        lib_type,
    ) =~= head);
    for i in 0..targets.len()
        invariant
            all_targets == targets_view(targets@),
            forall|k: int|
                0 <= k < targets@.len() ==> (#[trigger] targets@[k]).architectures@.len() > 0,
            stage_view(steps@) == head + all_library_steps(
                all_targets.take(i as int),
                target_dir@,
                lib_name@,
                output_dir@,
                mode,
                lib_type,
            ),
    {
        let target = &targets[i];
        proof {
            assert(all_targets.take(i + 1).drop_last() =~= all_targets.take(i as int));
            assert(all_targets.take(i + 1).last() == target@);
        }
        let ghost so_far = stage_view(steps@);
        let arch_dir = String::from_str(output_dir).concat("/jni/").concat(target.ndk_arch);
        let lib_path = target.library_path(target_dir, lib_name, mode, lib_type);
        let dest_path = arch_dir.clone().concat("/lib").concat(lib_name).concat(".so");
        push_stage(&mut steps, StageStep::CreateDirAll { path: arch_dir, context: None });
        push_stage(
            &mut steps,
            StageStep::CopyFile {
                from: lib_path,
                to: dest_path,
                context: Some(
                    String::from_str("Failed to copy library for ").concat(target.display_name()),
                ),
            },
        );
        assert(stage_view(steps@) =~= so_far + library_steps(
            target@,
            target_dir@,
            lib_name@,
            output_dir@,
            mode,
            lib_type,
        ));
    }
    proof {
        assert(all_targets.take(targets@.len() as int) =~= all_targets);
    }
    let package_dir = String::from_str(output_dir).concat("/kotlin/").concat(
        package_path(package_name).as_str(),
    );
    let generated_dir = generated_kotlin_dir(package_name);
    push_stage(
        &mut steps,
        StageStep::CreateDirAll { path: String::from_str(output_dir).concat("/kotlin"), context: None },
    );
    push_stage(&mut steps, StageStep::CreateDirAll { path: package_dir.clone(), context: None });
    let ghost middle = stage_view(steps@);
    let ghost listed = listing_view(generated@);
    assert(listed.take(0) =~= Seq::empty());
    assert(middle + source_steps(listed.take(0), generated_dir@, package_dir@) =~= middle);
    for i in 0..generated.len()
        invariant
            listed == listing_view(generated@),
            stage_view(steps@) == middle + source_steps(
                listed.take(i as int),
                generated_dir@,
                package_dir@,
            ),
    {
        let entry = &generated[i];
        proof {
            assert(listed.take(i + 1).drop_last() =~= listed.take(i as int));
            assert(listed.take(i + 1).last() == entry@);
        }
        if entry.is_file && has_extension(entry.name.as_str(), "kt") {
            let ghost so_far = stage_view(steps@);
            push_stage(
                &mut steps,
                StageStep::CopyFile {
                    from: generated_dir.clone().concat("/").concat(entry.name.as_str()),
                    to: package_dir.clone().concat("/").concat(entry.name.as_str()),
                    context: None,
                },
            );
            assert(stage_view(steps@) =~= middle + source_steps(
                listed.take(i as int),
                generated_dir@,
                package_dir@,
            ).push(
                StageStepView::CopyFile {
                    from: generated_dir@ + "/"@ + entry@.name,
                    to: package_dir@ + "/"@ + entry@.name,
                    context: None,
                },
            ));
        }
    }
    proof {
        assert(listed.take(generated@.len() as int) =~= listed);
    }
    let ghost staged = stage_view(steps@);
    push_stage(
        &mut steps,
        StageStep::WriteFile {
            path: String::from_str(output_dir).concat("/gradle.properties"),
            content: String::from_str(gradle_properties),
            context: Some(String::from_str("Failed to write gradle.properties")),
        },
    );
    push_stage(
        &mut steps,
        StageStep::CreateEmptyFile { path: String::from_str(output_dir).concat("/R.txt") },
    );
    push_stage(
        &mut steps,
        StageStep::WriteFile {
            path: String::from_str(output_dir).concat("/proguard.txt"),
            content: String::from_str("-keep class ").concat(package_name).concat(
                ".** { *; }\n",
            ),
            context: None,
        },
    );
    push_stage(
        &mut steps,
        StageStep::CreateDirAll { path: String::from_str(output_dir).concat("/META-INF"), context: None },
    );
    assert(stage_view(steps@) =~= aar_steps(
        all_targets,
        target_dir@,
        lib_name@,
        package_name@,
        output_dir@,
        mode,
        lib_type,
        manifest@,
        gradle_properties@,
        listed,
    ));
    steps
}

/// The plan of the archive named `aar_name`.
pub fn create_aar_with_output(
    targets: &Vec<AndroidTarget>,
    target_dir: &str,
    lib_name: &str,
    package_name: &str,
    aar_name: &str,
    mode: Mode,
    lib_type: LibType,
    manifest: &str,
    gradle_properties: &str,
    generated: &Vec<ListedEntry>,
) -> (plan: AarPlan)
    requires
        forall|k: int| 0 <= k < targets@.len() ==> (#[trigger] targets@[k]).architectures@.len() > 0,
    ensures
        plan@ == aar_plan(
            targets_view(targets@),
            target_dir@,
            lib_name@,
            package_name@,
            aar_name@,
            mode,
            lib_type,
            manifest@,
            gradle_properties@,
            listing_view(generated@),
        ),
{
    let mut steps: Vec<StageStep> = Vec::new();
    assert(stage_view(steps@) =~= Seq::empty());
    push_stage(&mut steps, StageStep::RecreateDir { path: String::from_str(aar_name) });
    let ghost first = stage_view(steps@);
    let mut layout = create_aar(
        targets,
        target_dir,
        lib_name,
        package_name,
        aar_name,
        mode,
        lib_type,
        manifest,
        gradle_properties,
        generated,
    );
    let ghost rest = stage_view(layout@);
    steps.append(&mut layout);
    assert(stage_view(steps@) =~= first + rest);
    AarPlan {
        title: String::from_str("Creating Android AAR package..."),
        output_dir: String::from_str(aar_name),
        steps,
        archive_path: String::from_str(aar_name).concat(".aar"),
    }
}


/// A node of the staged tree as it was read from disk: a file, or a
/// directory with what it holds in the order in which it was listed.
#[derive(Debug, PartialEq, Eq)]
pub enum Node {
    File { name: String },
    Dir { name: String, entries: Vec<Node> },
}

/// The kind of an archive entry.
#[derive(Clone, Copy, Debug, PartialEq, Eq, Structural)]
pub enum EntryKind {
    Directory,
    File,
}

/// One entry of the archive: its path relative to the staging directory,
/// and whether it is a directory or a file.
#[derive(Debug, Clone, PartialEq, Eq)]
pub struct ArchiveEntry {
    pub name: String,
    pub kind: EntryKind,
}

pub ghost struct ArchiveEntryView {
    pub name: Seq<char>,
    pub kind: EntryKind,
}

impl View for ArchiveEntry {
    type V = ArchiveEntryView;

    open spec fn view(&self) -> ArchiveEntryView {
        ArchiveEntryView { name: self.name@, kind: self.kind }
    }
}

/// The views of a list of entries, in order.
pub open spec fn entries_view(entries: Seq<ArchiveEntry>) -> Seq<ArchiveEntryView> {
    entries.map_values(|e: ArchiveEntry| e@)
}

/// How every entry of the archive is stored.
#[derive(Clone, Copy, Debug, PartialEq, Eq, Structural)]
pub struct ArchiveOptions {
    /// The permission bits of every entry.
    pub unix_permissions: u32,
    /// Whether the content of files is compressed with deflate.
    pub deflated: bool,
}

/// Every entry is stored as `rwxr-xr-x`, and files are deflated.
pub open spec fn archive_options_spec() -> ArchiveOptions {
    ArchiveOptions { unix_permissions: 0o755, deflated: true }
}

pub fn archive_options() -> (r: ArchiveOptions)
    ensures
        r == archive_options_spec(),
{
    ArchiveOptions { unix_permissions: 0o755, deflated: true }
}

/// The entries that one node stands for, given the path of its directory
/// (empty, or ending in a separator): the node itself, and behind a
/// directory everything it holds.
pub open spec fn node_entries(node: Node, prefix: Seq<char>, sep: Seq<char>) -> Seq<
    ArchiveEntryView,
>
    decreases node,
{
    match node {
        Node::File { name } => seq![
            ArchiveEntryView { name: prefix + name@, kind: EntryKind::File },
        ],
        Node::Dir { name, entries } => seq![
            ArchiveEntryView { name: prefix + name@, kind: EntryKind::Directory },
        ] + tree_entries(entries@, prefix + name@ + sep, sep),
    }
}

/// The entries of a list of nodes, in the order of the list.
pub open spec fn tree_entries(nodes: Seq<Node>, prefix: Seq<char>, sep: Seq<char>) -> Seq<
    ArchiveEntryView,
>
    decreases nodes,
{
    if nodes.len() == 0 {
        Seq::empty()
    } else {
        tree_entries(nodes.drop_last(), prefix, sep) + node_entries(nodes.last(), prefix, sep)
    }
}

/// Whether the tree holds a node of the given kind at the given path.
pub open spec fn in_node(node: Node, prefix: Seq<char>, sep: Seq<char>, e: ArchiveEntryView) -> bool
    decreases node,
{
    match node {
        Node::File { name } => e == (ArchiveEntryView {
            name: prefix + name@,
            kind: EntryKind::File,
        }),
        Node::Dir { name, entries } => e == (ArchiveEntryView {
            name: prefix + name@,
            kind: EntryKind::Directory,
        }) || in_tree(entries@, prefix + name@ + sep, sep, e),
    }
}

/// Whether one of the nodes, or a directory among them, holds a node of
/// the given kind at the given path.
pub open spec fn in_tree(nodes: Seq<Node>, prefix: Seq<char>, sep: Seq<char>, e: ArchiveEntryView) -> bool
    decreases nodes,
{
    if nodes.len() == 0 {
        false
    } else {
        in_tree(nodes.drop_last(), prefix, sep, e) || in_node(nodes.last(), prefix, sep, e)
    }
}

/// The number of nodes in a node and below it.
pub open spec fn node_count(node: Node) -> nat
    decreases node,
{
    match node {
        Node::File { name } => 1,
        Node::Dir { name, entries } => 1 + tree_count(entries@),
    }
}

/// The number of nodes in a list of nodes and below them.
pub open spec fn tree_count(nodes: Seq<Node>) -> nat
    decreases nodes,
{
    if nodes.len() == 0 {
        0
    } else {
        tree_count(nodes.drop_last()) + node_count(nodes.last())
    }
}

/// Appends the entries of a list of nodes to `out`.
fn add_dir_to_zip(nodes: &Vec<Node>, prefix: &str, sep: &str, out: &mut Vec<ArchiveEntry>)
    ensures
        entries_view(final(out)@) == entries_view(old(out)@) + tree_entries(
            nodes@,
            prefix@,
            sep@,
        ),
    decreases nodes,
{
    let ghost start = entries_view(out@);
    assert(nodes@.take(0) =~= Seq::empty());
    assert(start + tree_entries(nodes@.take(0), prefix@, sep@) =~= start);
    for i in 0..nodes.len()
        invariant
            entries_view(out@) == start + tree_entries(nodes@.take(i as int), prefix@, sep@),
    {
        proof {
            assert(nodes@.take(i + 1).drop_last() =~= nodes@.take(i as int));
            assert(nodes@.take(i + 1).last() == nodes@[i as int]);
        }
        let ghost so_far = entries_view(out@);
        match &nodes[i] {
            Node::File { name } => {
                let entry = ArchiveEntry {
                    name: String::from_str(prefix).concat(name.as_str()),
                    kind: EntryKind::File,
                };
                let ghost before = out@;
                out.push(entry);
                assert(entries_view(out@) =~= entries_view(before).push(entry@));
                assert(entries_view(out@) =~= so_far + node_entries(
                    nodes@[i as int],
                    prefix@,
                    sep@,
                ));
            },
            Node::Dir { name, entries } => {
                let path = String::from_str(prefix).concat(name.as_str());
                let entry = ArchiveEntry { name: path.clone(), kind: EntryKind::Directory };
                let ghost before = out@;
                out.push(entry);
                assert(entries_view(out@) =~= entries_view(before).push(entry@));
                let inner = path.concat(sep);
                add_dir_to_zip(entries, inner.as_str(), sep, out);
                assert(entries_view(out@) =~= so_far + node_entries(
                    nodes@[i as int],
                    prefix@,
                    sep@,
                ));
            },
        }
    }
    proof {
        assert(nodes@.take(nodes@.len() as int) =~= nodes@);
    }
}

/// The entries of the archive of a staged tree. `nodes` is what the
/// staging directory holds, as read from disk; `sep` separates the
/// components of a path on the host. Every node becomes one entry, named by
/// its path relative to the staging directory; a directory comes before
/// what it holds, and siblings keep the order in which they were listed.
pub fn archive_entries(nodes: &Vec<Node>, sep: &str) -> (entries: Vec<ArchiveEntry>)
    ensures
        entries_view(entries@) == tree_entries(nodes@, Seq::empty(), sep@),
{
    let mut out: Vec<ArchiveEntry> = Vec::new();
    let empty = String::new();
    add_dir_to_zip(nodes, empty.as_str(), sep, &mut out);
    assert(entries_view(out@) =~= tree_entries(nodes@, Seq::empty(), sep@));
    out
}

/// The archive holds exactly the tree: a node of some kind at some path
/// is in the tree if and only if the archive has an entry of that kind
/// under that path, and the archive has one entry per node.
pub proof fn lemma_archive_holds_the_tree(
    nodes: Seq<Node>,
    prefix: Seq<char>,
    sep: Seq<char>,
    e: ArchiveEntryView,
)
    ensures
        tree_entries(nodes, prefix, sep).contains(e) <==> in_tree(nodes, prefix, sep, e),
        tree_entries(nodes, prefix, sep).len() == tree_count(nodes),
    decreases nodes, 1nat,
{
    if nodes.len() > 0 {
        let earlier = tree_entries(nodes.drop_last(), prefix, sep);
        let last = node_entries(nodes.last(), prefix, sep);
        lemma_archive_holds_the_tree(nodes.drop_last(), prefix, sep, e);
        lemma_archive_holds_the_node(nodes.last(), prefix, sep, e);
        lemma_contains_in_concat(earlier, last, e);
    }
}

/// The entries of a node are exactly the node and what lies below it.
pub proof fn lemma_archive_holds_the_node(
    node: Node,
    prefix: Seq<char>,
    sep: Seq<char>,
    e: ArchiveEntryView,
)
    ensures
        node_entries(node, prefix, sep).contains(e) <==> in_node(node, prefix, sep, e),
        node_entries(node, prefix, sep).len() == node_count(node),
        node_entries(node, prefix, sep)[0].name == prefix + node_name(node),
    decreases node, 0nat,
{
    match node {
        Node::File { name } => {
            let own = ArchiveEntryView { name: prefix + name@, kind: EntryKind::File };
            assert(seq![own][0] == own);
            if seq![own].contains(e) {
                let k = choose|k: int| 0 <= k < 1 && seq![own][k] == e;
                assert(e == own);
            }
        },
        Node::Dir { name, entries } => {
            let own = ArchiveEntryView { name: prefix + name@, kind: EntryKind::Directory };
            let below = tree_entries(entries@, prefix + name@ + sep, sep);
            lemma_archive_holds_the_tree(entries@, prefix + name@ + sep, sep, e);
            lemma_contains_in_concat(seq![own], below, e);
            assert(seq![own][0] == own);
            if seq![own].contains(e) {
                let k = choose|k: int| 0 <= k < 1 && seq![own][k] == e;
                assert(e == own);
            }
        },
    }
}

/// The name of a node.
pub open spec fn node_name(node: Node) -> Seq<char> {
    match node {
        Node::File { name } => name@,
        Node::Dir { name, entries } => name@,
    }
}

proof fn lemma_contains_in_concat<A>(a: Seq<A>, b: Seq<A>, x: A)
    ensures
        (a + b).contains(x) <==> a.contains(x) || b.contains(x),
{
    if a.contains(x) {
        let k = choose|k: int| 0 <= k < a.len() && a[k] == x;
        assert((a + b)[k] == x);
    }
    if b.contains(x) {
        let k = choose|k: int| 0 <= k < b.len() && b[k] == x;
        assert((a + b)[a.len() + k] == x);
    }
    if (a + b).contains(x) {
        let k = choose|k: int| 0 <= k < (a + b).len() && (a + b)[k] == x;
        if k < a.len() {
            assert(a[k] == x);
        } else {
            assert(b[k - a.len()] == x);
        }
    }
}

/// Two walks of the same tree list the same entries: the same paths, in
/// the same order.
pub proof fn lemma_archive_is_reproducible(
    nodes: Seq<Node>,
    sep: Seq<char>,
    first: Seq<ArchiveEntryView>,
    second: Seq<ArchiveEntryView>,
)
    requires
        first == tree_entries(nodes, Seq::empty(), sep),
        second == tree_entries(nodes, Seq::empty(), sep),
    ensures
        first == second,
        first.len() == second.len(),
        forall|i: int| 0 <= i < first.len() ==> first[i].name == second[i].name,
{
}


/// Whether a name is free of the character that separates the components
/// of a path.
pub open spec fn plain(name: Seq<char>, c: char) -> bool {
    !name.contains(c)
}

/// Whether a node can be what a directory on disk holds: its name is
/// plain, and so is everything below it.
pub open spec fn node_on_disk(node: Node, c: char) -> bool
    decreases node,
{
    match node {
        Node::File { name } => plain(name@, c),
        Node::Dir { name, entries } => plain(name@, c) && tree_on_disk(entries@, c),
    }
}

/// Whether a list of nodes can be what a directory on disk holds: no two
/// of them share a name, and each can be on disk.
pub open spec fn tree_on_disk(nodes: Seq<Node>, c: char) -> bool
    decreases nodes,
{
    nodes.len() == 0 || (tree_on_disk(nodes.drop_last(), c) && node_on_disk(nodes.last(), c)
        && forall|i: int|
        0 <= i < nodes.len() - 1 ==> node_name(#[trigger] nodes[i]) != node_name(nodes.last()))
}

/// Whether a path lies at or below the entry `name` of the directory
/// `prefix`: it starts with the prefix and the name, and either ends there
/// or goes on with a separator.
pub open spec fn at_or_below(path: Seq<char>, prefix: Seq<char>, name: Seq<char>, c: char) -> bool {
    let n = prefix.len() + name.len();
    path.len() >= n && path.take(n as int) == prefix + name && (path.len() == n || path[n as int]
        == c)
}

/// Whether no two entries share a path.
pub open spec fn distinct_paths(entries: Seq<ArchiveEntryView>) -> bool {
    forall|i: int, j: int|
        0 <= i < entries.len() && 0 <= j < entries.len() && i != j ==> (#[trigger] entries[i]).name
            != (#[trigger] entries[j]).name
}

proof fn lemma_entries_start_with_prefix(nodes: Seq<Node>, prefix: Seq<char>, sep: Seq<char>, k: int)
    requires
        0 <= k < tree_entries(nodes, prefix, sep).len(),
    ensures
        tree_entries(nodes, prefix, sep)[k].name.len() >= prefix.len(),
        tree_entries(nodes, prefix, sep)[k].name.take(prefix.len() as int) == prefix,
    decreases nodes, 1nat,
{
    let earlier = tree_entries(nodes.drop_last(), prefix, sep);
    if k < earlier.len() {
        lemma_entries_start_with_prefix(nodes.drop_last(), prefix, sep, k);
    } else {
        lemma_node_entries_start_with_prefix(nodes.last(), prefix, sep, k - earlier.len());
    }
}

proof fn lemma_node_entries_start_with_prefix(
    node: Node,
    prefix: Seq<char>,
    sep: Seq<char>,
    k: int,
)
    requires
        0 <= k < node_entries(node, prefix, sep).len(),
    ensures
        node_entries(node, prefix, sep)[k].name.len() >= prefix.len() + node_name(node).len(),
        node_entries(node, prefix, sep)[k].name.take(
            (prefix.len() + node_name(node).len()) as int,
        ) == prefix + node_name(node),
        k > 0 ==> node_entries(node, prefix, sep)[k].name.len() >= prefix.len() + node_name(
            node,
        ).len() + sep.len() && node_entries(node, prefix, sep)[k].name.take(
            (prefix.len() + node_name(node).len() + sep.len()) as int,
        ) == prefix + node_name(node) + sep,
        node_entries(node, prefix, sep)[k].name.take(prefix.len() as int) == prefix,
    decreases node, 0nat,
{
    let own = prefix + node_name(node);
    let path = node_entries(node, prefix, sep)[k].name;
    match node {
        Node::File { name } => {
            assert(path == own);
            assert(own.take(own.len() as int) =~= own);
        },
        Node::Dir { name, entries } => {
            if k == 0 {
                assert(path == own);
                assert(own.take(own.len() as int) =~= own);
            } else {
                let inner = own + sep;
                lemma_entries_start_with_prefix(entries@, inner, sep, k - 1);
                assert(path == tree_entries(entries@, inner, sep)[k - 1].name);
                assert(path.take(own.len() as int) =~= path.take(inner.len() as int).take(
                    own.len() as int,
                ));
                assert(inner.take(own.len() as int) =~= own);
            }
        },
    }
    assert(path.take(prefix.len() as int) =~= path.take(own.len() as int).take(
        prefix.len() as int,
    ));
    assert(own.take(prefix.len() as int) =~= prefix);
}

/// Every entry of a node lies at or below the node.
proof fn lemma_node_entries_lie_below(node: Node, prefix: Seq<char>, sep: Seq<char>, k: int)
    requires
        0 <= k < node_entries(node, prefix, sep).len(),
        sep.len() == 1,
    ensures
        at_or_below(node_entries(node, prefix, sep)[k].name, prefix, node_name(node), sep[0]),
{
    lemma_node_entries_start_with_prefix(node, prefix, sep, k);
    let own = prefix + node_name(node);
    let path = node_entries(node, prefix, sep)[k].name;
    if k > 0 {
        let inner = own + sep;
        assert(path.take(inner.len() as int)[own.len() as int] == inner[own.len() as int]);
    } else {
        assert(path == own);
    }
}

/// Every entry of a list of nodes lies at or below one of the nodes.
proof fn lemma_entries_lie_below(nodes: Seq<Node>, prefix: Seq<char>, sep: Seq<char>, k: int) -> (i:
    int)
    requires
        0 <= k < tree_entries(nodes, prefix, sep).len(),
        sep.len() == 1,
    ensures
        0 <= i < nodes.len(),
        at_or_below(tree_entries(nodes, prefix, sep)[k].name, prefix, node_name(nodes[i]), sep[0]),
    decreases nodes,
{
    let earlier = tree_entries(nodes.drop_last(), prefix, sep);
    if k < earlier.len() {
        let i = lemma_entries_lie_below(nodes.drop_last(), prefix, sep, k);
        assert(nodes.drop_last()[i] == nodes[i]);
        i
    } else {
        lemma_node_entries_lie_below(nodes.last(), prefix, sep, k - earlier.len());
        nodes.len() - 1
    }
}

/// Paths at or below two entries of different plain names differ.
proof fn lemma_different_names_part_paths(
    x: Seq<char>,
    y: Seq<char>,
    prefix: Seq<char>,
    a: Seq<char>,
    b: Seq<char>,
    c: char,
)
    requires
        at_or_below(x, prefix, a, c),
        at_or_below(y, prefix, b, c),
        plain(a, c),
        plain(b, c),
        a != b,
    ensures
        x != y,
{
    if x == y {
        let p = prefix.len() as int;
        let (la, lb) = (a.len() as int, b.len() as int);
        if la == lb {
            assert(prefix + a == prefix + b);
            assert forall|i: int| 0 <= i < la implies a[i] == b[i] by {
                assert((prefix + a)[p + i] == a[i]);
                assert((prefix + b)[p + i] == b[i]);
            }
            assert(a =~= b);
        } else if la < lb {
            assert(x[p + la] == c);
            assert(y.take(p + lb)[p + la] == (prefix + b)[p + la]);
            assert((prefix + b)[p + la] == b[la]);
            assert(b.contains(b[la]));
        } else {
            assert(y[p + lb] == c);
            assert(x.take(p + la)[p + lb] == (prefix + a)[p + lb]);
            assert((prefix + a)[p + lb] == a[lb]);
            assert(a.contains(a[lb]));
        }
    }
}

/// In the archive of a tree that can be on disk, no two entries share a
/// path: every node has its own entry, and unpacking writes nothing twice.
pub proof fn lemma_archive_paths_are_distinct(nodes: Seq<Node>, prefix: Seq<char>, sep: Seq<char>)
    requires
        sep.len() == 1,
        tree_on_disk(nodes, sep[0]),
    ensures
        distinct_paths(tree_entries(nodes, prefix, sep)),
    decreases nodes, 1nat,
{
    let all = tree_entries(nodes, prefix, sep);
    if nodes.len() > 0 {
        let earlier = tree_entries(nodes.drop_last(), prefix, sep);
        let last = node_entries(nodes.last(), prefix, sep);
        lemma_archive_paths_are_distinct(nodes.drop_last(), prefix, sep);
        lemma_node_paths_are_distinct(nodes.last(), prefix, sep);
        assert forall|i: int, j: int|
            0 <= i < all.len() && 0 <= j < all.len() && i != j implies (#[trigger] all[i]).name != (
        #[trigger] all[j]).name by {
            let n = earlier.len() as int;
            if i < n && j < n {
                assert(all[i] == earlier[i] && all[j] == earlier[j]);
            } else if i >= n && j >= n {
                assert(all[i] == last[i - n] && all[j] == last[j - n]);
            } else {
                let (lo, hi) = if i < n {
                    (i, j)
                } else {
                    (j, i)
                };
                let owner = lemma_entries_lie_below(nodes.drop_last(), prefix, sep, lo);
                lemma_node_entries_lie_below(nodes.last(), prefix, sep, hi - n);
                assert(nodes.drop_last()[owner] == nodes[owner]);
                lemma_on_disk_names_are_plain(nodes, sep[0], owner);
                lemma_on_disk_names_are_plain(nodes, sep[0], nodes.len() - 1);
                lemma_different_names_part_paths(
                    all[lo].name,
                    all[hi].name,
                    prefix,
                    node_name(nodes[owner]),
                    node_name(nodes.last()),
                    sep[0],
                );
            }
        }
    }
}

proof fn lemma_on_disk_names_are_plain(nodes: Seq<Node>, c: char, i: int)
    requires
        tree_on_disk(nodes, c),
        0 <= i < nodes.len(),
    ensures
        plain(node_name(nodes[i]), c),
        node_on_disk(nodes[i], c),
    decreases nodes,
{
    if i < nodes.len() - 1 {
        lemma_on_disk_names_are_plain(nodes.drop_last(), c, i);
        assert(nodes.drop_last()[i] == nodes[i]);
    } else {
        reveal_with_fuel(node_on_disk, 2);
        assert(nodes[i] == nodes.last());
        assert(node_on_disk(nodes.last(), c));
    }
}

proof fn lemma_node_paths_are_distinct(node: Node, prefix: Seq<char>, sep: Seq<char>)
    requires
        sep.len() == 1,
        node_on_disk(node, sep[0]),
    ensures
        distinct_paths(node_entries(node, prefix, sep)),
    decreases node, 0nat,
{
    match node {
        Node::File { name } => {},
        Node::Dir { name, entries } => {
            let own = prefix + name@;
            let inner = own + sep;
            let below = tree_entries(entries@, inner, sep);
            let all = node_entries(node, prefix, sep);
            lemma_archive_paths_are_distinct(entries@, inner, sep);
            assert forall|i: int, j: int|
                0 <= i < all.len() && 0 <= j < all.len() && i != j implies (
            #[trigger] all[i]).name != (#[trigger] all[j]).name by {
                if i > 0 && j > 0 {
                    assert(all[i] == below[i - 1] && all[j] == below[j - 1]);
                } else {
                    let k = if i == 0 {
                        j
                    } else {
                        i
                    };
                    lemma_entries_start_with_prefix(entries@, inner, sep, k - 1);
                    assert(all[k] == below[k - 1]);
                    assert(all[0].name == own);
                    assert(all[k].name.len() >= inner.len());
                }
            }
        },
    }
}

/// What unpacking an archive leaves on disk: a directory or a file at the
/// path of every entry.
pub open spec fn extracted(entries: Seq<ArchiveEntryView>) -> Set<ArchiveEntryView> {
    entries.to_set()
}

/// What the staged tree holds on disk: a directory or a file at the path
/// of every node.
pub open spec fn staged(nodes: Seq<Node>, sep: Seq<char>) -> Set<ArchiveEntryView> {
    Set::new(|e: ArchiveEntryView| in_tree(nodes, Seq::empty(), sep, e))
}

/// Unpacking the archive of a staged tree gives the staged tree back:
/// every file and every directory of the tree at its path, and nothing
/// besides.
pub proof fn lemma_extraction_reproduces_the_tree(nodes: Seq<Node>, sep: Seq<char>)
    ensures
        extracted(tree_entries(nodes, Seq::empty(), sep)) == staged(nodes, sep),
{
    let entries = tree_entries(nodes, Seq::empty(), sep);
    assert forall|e: ArchiveEntryView| extracted(entries).contains(e) <==> staged(
        nodes,
        sep,
    ).contains(e) by {
        lemma_archive_holds_the_tree(nodes, Seq::empty(), sep, e);
    }
    assert(extracted(entries) =~= staged(nodes, sep));
}

/// Unpacking the archive of a tree that can be on disk writes every node
/// exactly once: what it leaves behind has as many files and directories
/// as the tree has nodes.
pub proof fn lemma_unpacking_writes_every_node_once(nodes: Seq<Node>, sep: Seq<char>)
    requires
        sep.len() == 1,
        tree_on_disk(nodes, sep[0]),
    ensures
        extracted(tree_entries(nodes, Seq::empty(), sep)) == staged(nodes, sep),
        extracted(tree_entries(nodes, Seq::empty(), sep)).len() == tree_count(nodes),
{
    let entries = tree_entries(nodes, Seq::empty(), sep);
    lemma_extraction_reproduces_the_tree(nodes, sep);
    lemma_archive_paths_are_distinct(nodes, Seq::empty(), sep);
    assert(entries.no_duplicates());
    entries.unique_seq_to_set();
    lemma_archive_holds_the_tree(
        nodes,
        Seq::empty(),
        sep,
        ArchiveEntryView { name: Seq::empty(), kind: EntryKind::File },
    );
}

/// Packaging starts from an empty staging directory, whatever an earlier
/// run left behind: the first step of every plan empties the directory
/// that all later steps write into. Two plans from the same input are the
/// same plan.
pub proof fn lemma_packaging_starts_afresh(
    targets: Seq<AndroidTargetView>,
    target_dir: Seq<char>,
    lib_name: Seq<char>,
    package_name: Seq<char>,
    aar_name: Seq<char>,
    mode: Mode,
    lib_type: LibType,
    manifest: Seq<char>,
    gradle_properties: Seq<char>,
    generated: Seq<ListedEntryView>,
)
    ensures
        ({
            let plan = aar_plan(
                targets,
                target_dir,
                lib_name,
                package_name,
                aar_name,
                mode,
                lib_type,
                manifest,
                gradle_properties,
                generated,
            );
            &&& plan.output_dir == aar_name
            &&& plan.steps.len() > 0
            &&& plan.steps[0] == (StageStepView::RecreateDir { path: aar_name })
            &&& forall|i: int|
                1 <= i < plan.steps.len() ==> !(#[trigger] plan.steps[i] is RecreateDir)
        }),
{
    let layout = aar_steps(
        targets,
        target_dir,
        lib_name,
        package_name,
        aar_name,
        mode,
        lib_type,
        manifest,
        gradle_properties,
        generated,
    );
    lemma_layout_removes_nothing(
        targets,
        target_dir,
        lib_name,
        package_name,
        aar_name,
        mode,
        lib_type,
        manifest,
        gradle_properties,
        generated,
    );
    let plan = seq![StageStepView::RecreateDir { path: aar_name }] + layout;
    assert forall|i: int| 1 <= i < plan.len() implies !(#[trigger] plan[i] is RecreateDir) by {
        assert(plan[i] == layout[i - 1]);
    }
}

proof fn lemma_library_steps_remove_nothing(
    targets: Seq<AndroidTargetView>,
    target_dir: Seq<char>,
    lib_name: Seq<char>,
    output_dir: Seq<char>,
    mode: Mode,
    lib_type: LibType,
)
    ensures
        forall|i: int|
            0 <= i < all_library_steps(
                targets,
                target_dir,
                lib_name,
                output_dir,
                mode,
                lib_type,
            ).len() ==> !(#[trigger] all_library_steps(
                targets,
                target_dir,
                lib_name,
                output_dir,
                mode,
                lib_type,
            )[i] is RecreateDir),
    decreases targets.len(),
{
    if targets.len() > 0 {
        lemma_library_steps_remove_nothing(
            targets.drop_last(),
            target_dir,
            lib_name,
            output_dir,
            mode,
            lib_type,
        );
    }
}

proof fn lemma_source_steps_remove_nothing(
    generated: Seq<ListedEntryView>,
    generated_dir: Seq<char>,
    package_dir: Seq<char>,
)
    ensures
        forall|i: int|
            0 <= i < source_steps(generated, generated_dir, package_dir).len() ==> !(
            #[trigger] source_steps(generated, generated_dir, package_dir)[i] is RecreateDir),
    decreases generated.len(),
{
    if generated.len() > 0 {
        lemma_source_steps_remove_nothing(generated.drop_last(), generated_dir, package_dir);
    }
}

proof fn lemma_layout_removes_nothing(
    targets: Seq<AndroidTargetView>,
    target_dir: Seq<char>,
    lib_name: Seq<char>,
    package_name: Seq<char>,
    output_dir: Seq<char>,
    mode: Mode,
    lib_type: LibType,
    manifest: Seq<char>,
    gradle_properties: Seq<char>,
    generated: Seq<ListedEntryView>,
)
    ensures
        forall|i: int|
            0 <= i < aar_steps(
                targets,
                target_dir,
                lib_name,
                package_name,
                output_dir,
                mode,
                lib_type,
                manifest,
                gradle_properties,
                generated,
            ).len() ==> !(#[trigger] aar_steps(
                targets,
                target_dir,
                lib_name,
                package_name,
                output_dir,
                mode,
                lib_type,
                manifest,
                gradle_properties,
                generated,
            )[i] is RecreateDir),
{
    let package_dir = output_dir + "/kotlin/"@ + package_path_spec(package_name);
    lemma_library_steps_remove_nothing(targets, target_dir, lib_name, output_dir, mode, lib_type);
    lemma_source_steps_remove_nothing(
        generated,
        generated_kotlin_dir_spec(package_name),
        package_dir,
    );
}

} // verus!
