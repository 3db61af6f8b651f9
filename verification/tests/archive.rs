use rusify_cli::android::aar::EntryKind::{Directory, File};
use rusify_cli::android::aar::{
    aar_failure, archive_entries, archive_options, create_aar, create_aar_with_output,
    generated_kotlin_dir, package_path, ArchiveEntry, ArchiveOptions, EntryKind, Node,
};
use rusify_cli::android::android_target::AndroidArch;
use rusify_cli::common::error::PackageError;
use rusify_cli::common::models::{LibType, Mode};
use rusify_cli::common::staging::{ListedEntry, StageStep};

fn dir_all(path: &str) -> StageStep {
    StageStep::CreateDirAll { path: path.to_string(), context: None }
}

fn copy(from: &str, to: &str, context: Option<&str>) -> StageStep {
    StageStep::CopyFile { from: from.to_string(), to: to.to_string(), context: context.map(|c| c.to_string()) }
}

fn write(path: &str, content: &str, context: Option<&str>) -> StageStep {
    StageStep::WriteFile { path: path.to_string(), content: content.to_string(), context: context.map(|c| c.to_string()) }
}

fn listed(name: &str, is_file: bool) -> ListedEntry {
    ListedEntry { name: name.to_string(), is_file }
}

fn file(name: &str) -> Node {
    Node::File { name: name.to_string() }
}

fn dir(name: &str, entries: Vec<Node>) -> Node {
    Node::Dir { name: name.to_string(), entries }
}

fn entry(name: &str, kind: EntryKind) -> ArchiveEntry {
    ArchiveEntry { name: name.to_string(), kind }
}

#[test]
fn package_paths() {
    assert_eq!(package_path("com.demo.app"), "com/demo/app");
    assert_eq!(package_path("single"), "single");
    assert_eq!(generated_kotlin_dir("com.demo"), "./generated/kotlin/com/demo");
}

#[test]
fn staging_layout() {
    let targets = vec![AndroidArch::ARM64V8A.target(21), AndroidArch::X86_64.target(21)];
    let generated = vec![
        listed("demo.kt", true),
        listed("notes.txt", true),
        listed("nested.kt", false),
        listed("other.kt", true),
    ];
    let steps = create_aar(&targets, "target", "demo", "com.demo", "out", Mode::Release, LibType::Dynamic, "<manifest/>", "props\n", &generated);
    let expected = vec![
        dir_all("out/jni"),
        dir_all("out/manifests"),
        write("out/manifests/AndroidManifest.xml", "<manifest/>", Some("Failed to write AndroidManifest.xml")),
        dir_all("out/jni/arm64-v8a"),
        copy("target/aarch64-linux-android/release/libdemo.so", "out/jni/arm64-v8a/libdemo.so", Some("Failed to copy library for ARM64-v8a")),
        dir_all("out/jni/x86_64"),
        copy("target/x86_64-linux-android/release/libdemo.so", "out/jni/x86_64/libdemo.so", Some("Failed to copy library for x86_64")),
        dir_all("out/kotlin"),
        dir_all("out/kotlin/com/demo"),
        copy("./generated/kotlin/com/demo/demo.kt", "out/kotlin/com/demo/demo.kt", None),
        copy("./generated/kotlin/com/demo/other.kt", "out/kotlin/com/demo/other.kt", None),
        write("out/gradle.properties", "props\n", Some("Failed to write gradle.properties")),
        StageStep::CreateEmptyFile { path: "out/R.txt".to_string() },
        write("out/proguard.txt", "-keep class com.demo.** { *; }\n", None),
        dir_all("out/META-INF"),
    ];
    assert_eq!(steps, expected);
}

#[test]
fn static_library_is_staged_under_the_shared_object_name() {
    let targets = vec![AndroidArch::X86.target(21)];
    let steps = create_aar(&targets, "t", "demo", "p", "out", Mode::Debug, LibType::Static, "", "", &vec![]);
    assert_eq!(steps[4], copy("t/i686-linux-android/debug/libdemo.a", "out/jni/x86/libdemo.so", Some("Failed to copy library for x86")));
    assert_eq!(steps.len(), 11);
}

#[test]
fn plan_empties_the_staging_directory_first() {
    let targets = vec![AndroidArch::X86.target(21)];
    let plan = create_aar_with_output(&targets, "t", "demo", "p", "demo-aar", Mode::Debug, LibType::Dynamic, "m", "g", &vec![]);
    assert_eq!(plan.title, "Creating Android AAR package...");
    assert_eq!(plan.output_dir, "demo-aar");
    assert_eq!(plan.archive_path, "demo-aar.aar");
    assert_eq!(plan.steps[0], StageStep::RecreateDir { path: "demo-aar".to_string() });
    assert_eq!(plan.steps[1..], create_aar(&targets, "t", "demo", "p", "demo-aar", Mode::Debug, LibType::Dynamic, "m", "g", &vec![])[..]);
    let again = create_aar_with_output(&targets, "t", "demo", "p", "demo-aar", Mode::Debug, LibType::Dynamic, "m", "g", &vec![]);
    assert_eq!(plan, again);
}

#[test]
fn failure_keeps_the_cause() {
    assert_eq!(
        aar_failure("disk full"),
        PackageError::Failed { message: "Failed to create AAR package due to the following error: \n disk full".to_string() }
    );
}

#[test]
fn every_entry_is_executable_and_deflated() {
    assert_eq!(archive_options(), ArchiveOptions { unix_permissions: 0o755, deflated: true });
    assert_eq!(archive_options().unix_permissions, 493);
}

fn staged_tree() -> Vec<Node> {
    vec![
        dir("manifests", vec![file("AndroidManifest.xml")]),
        file("R.txt"),
        dir("jni", vec![dir("x86", vec![file("libdemo.so")]), dir("arm64-v8a", vec![file("libdemo.so")])]),
        dir("META-INF", vec![]),
        dir("kotlin", vec![dir("com", vec![dir("demo", vec![file("demo.kt")])])]),
        file("gradle.properties"),
    ]
}

#[test]
fn archive_lists_the_tree_in_read_order() {
    let entries = archive_entries(&staged_tree(), "/");
    let expected = vec![
        entry("manifests", Directory),
        entry("manifests/AndroidManifest.xml", File),
        entry("R.txt", File),
        entry("jni", Directory),
        entry("jni/x86", Directory),
        entry("jni/x86/libdemo.so", File),
        entry("jni/arm64-v8a", Directory),
        entry("jni/arm64-v8a/libdemo.so", File),
        entry("META-INF", Directory),
        entry("kotlin", Directory),
        entry("kotlin/com", Directory),
        entry("kotlin/com/demo", Directory),
        entry("kotlin/com/demo/demo.kt", File),
        entry("gradle.properties", File),
    ];
    assert_eq!(entries, expected);
}

#[test]
fn archive_of_an_empty_tree_is_empty() {
    assert!(archive_entries(&vec![], "/").is_empty());
}

#[test]
fn archive_uses_the_separator_of_the_host() {
    let entries = archive_entries(&vec![dir("a", vec![dir("b", vec![file("c")])])], "\\");
    let names: Vec<&str> = entries.iter().map(|e| e.name.as_str()).collect();
    assert_eq!(names, vec!["a", "a\\b", "a\\b\\c"]);
}

#[test]
fn archiving_twice_gives_the_same_entries() {
    assert_eq!(archive_entries(&staged_tree(), "/"), archive_entries(&staged_tree(), "/"));
}

fn paths_of(nodes: &[Node], prefix: &str, out: &mut Vec<(String, EntryKind)>) {
    for node in nodes {
        match node {
            Node::File { name } => out.push((format!("{prefix}{name}"), EntryKind::File)),
            Node::Dir { name, entries } => {
                out.push((format!("{prefix}{name}"), EntryKind::Directory));
                paths_of(entries, &format!("{prefix}{name}/"), out);
            }
        }
    }
}

#[test]
fn archive_holds_every_node_and_nothing_else() {
    let tree = staged_tree();
    let mut expected = vec![];
    paths_of(&tree, "", &mut expected);
    let mut listed: Vec<(String, EntryKind)> = archive_entries(&tree, "/").into_iter().map(|e| (e.name, e.kind)).collect();
    assert_eq!(listed.len(), 14);
    listed.sort_by(|a, b| a.0.cmp(&b.0));
    expected.sort_by(|a, b| a.0.cmp(&b.0));
    assert_eq!(listed, expected);
}

#[test]
fn no_two_entries_share_a_path() {
    let tree = vec![
        dir("a", vec![file("b"), dir("c", vec![file("b")])]),
        file("ab"),
        dir("b", vec![file("a")]),
        file(""),
    ];
    let mut names: Vec<String> = archive_entries(&tree, "/").into_iter().map(|e| e.name).collect();
    let count = names.len();
    assert_eq!(count, 8);
    names.sort();
    names.dedup();
    assert_eq!(names.len(), count);
}
