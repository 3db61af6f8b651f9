use rusify_cli::common::command::Invocation;
use rusify_cli::common::models::Config;
use rusify_cli::common::path::{find_common_path, to_relative};
use rusify_cli::common::pipeline::{first_stage, next_stage, Flavor, Stage};
use rusify_cli::console::step::{
    run_step, run_step_with_commands, step_title, CommandOutput, Spinner, StepAction,
};
use rusify_cli::ohos::ohos_arch::OhosArch;

fn commands(n: usize) -> Vec<Invocation> {
    (0..n).map(|i| Invocation::new(format!("tool{i}"), vec![])).collect()
}

fn ok() -> CommandOutput {
    CommandOutput { success: true, stderr: String::new() }
}

fn failure(stderr: &str) -> CommandOutput {
    CommandOutput { success: false, stderr: stderr.to_string() }
}

fn path(components: &[&str]) -> Vec<String> {
    components.iter().map(|c| c.to_string()).collect()
}

#[test]
fn step_title_is_hidden_in_silent_runs() {
    assert_eq!(step_title(&Config { silent: true, accept_all: false }, "Building"), None);
    assert_eq!(step_title(&Config { silent: false, accept_all: false }, "Building"), Some("Building".to_string()));
}

#[test]
fn run_step_hands_the_result_through() {
    let loud = Config { silent: false, accept_all: false };
    let quiet = Config { silent: true, accept_all: false };
    let r = run_step(&loud, || Ok::<u32, String>(7));
    assert_eq!((r.result, r.spinner), (Ok(7), Some(Spinner::Finish)));
    let r = run_step(&loud, || Err::<u32, String>("no".to_string()));
    assert_eq!((r.result, r.spinner), (Err("no".to_string()), Some(Spinner::Fail)));
    let r = run_step(&quiet, || Ok::<u32, String>(7));
    assert_eq!((r.result, r.spinner), (Ok(7), None));
    let r = run_step(&quiet, || Err::<u32, String>("no".to_string()));
    assert_eq!((r.result, r.spinner), (Err("no".to_string()), None));
}

#[test]
fn commands_run_one_after_another() {
    let cmds = commands(3);
    assert_eq!(run_step_with_commands(&cmds, &vec![]), StepAction::Run { index: 0 });
    assert_eq!(run_step_with_commands(&cmds, &vec![ok()]), StepAction::Run { index: 1 });
    assert_eq!(run_step_with_commands(&cmds, &vec![ok(), ok()]), StepAction::Run { index: 2 });
    assert_eq!(run_step_with_commands(&cmds, &vec![ok(), ok(), ok()]), StepAction::Finish);
    assert_eq!(run_step_with_commands(&commands(0), &vec![]), StepAction::Finish);
}

#[test]
fn first_failure_ends_the_step_with_its_error_output() {
    let cmds = commands(3);
    assert_eq!(
        run_step_with_commands(&cmds, &vec![ok(), failure("error: linker failed\n")]),
        StepAction::Fail {
            message: "error: linker failed\n".to_string(),
            echo: Some("\n==== STDERR OUTPUT ====\nerror: linker failed\n".to_string()),
        }
    );
    assert_eq!(
        run_step_with_commands(&cmds, &vec![failure("")]),
        StepAction::Fail { message: String::new(), echo: None }
    );
    assert_eq!(
        run_step_with_commands(&cmds, &vec![failure("one"), ok(), failure("two")]),
        StepAction::Fail { message: "one".to_string(), echo: Some("\n==== STDERR OUTPUT ====\none".to_string()) }
    );
}

#[test]
fn ohos_names() {
    assert_eq!(OhosArch::all(), [OhosArch::ARM64, OhosArch::ARM32, OhosArch::X86_64]);
    assert_eq!(OhosArch::ARM64.to_arch(), "arm64-v8a");
    assert_eq!(OhosArch::ARM32.to_arch(), "armeabi-v7a");
    assert_eq!(OhosArch::X86_64.to_arch(), "x86_64");
    assert_eq!(OhosArch::ARM64.c_target(), "aarch64-linux-ohos");
    assert_eq!(OhosArch::ARM32.c_target(), "arm-linux-ohos");
    assert_eq!(OhosArch::X86_64.c_target(), "x86_64-linux-ohos");
    assert_eq!(OhosArch::ARM64.rust_link_target(), "AARCH64_UNKNOWN_LINUX_OHOS");
    assert_eq!(OhosArch::ARM32.rust_link_target(), "ARMV7_UNKNOWN_LINUX_OHOS");
    assert_eq!(OhosArch::X86_64.rust_link_target(), "X86_64_UNKNOWN_LINUX_OHOS");
    assert_eq!(OhosArch::ARM64.rust_target(), "aarch64-unknown-linux-ohos");
    assert_eq!(OhosArch::ARM32.rust_target(), "armv7-unknown-linux-ohos");
    assert_eq!(OhosArch::X86_64.rust_target(), "x86_64-unknown-linux-ohos");
}

#[test]
fn ohos_from_str_ignores_case() {
    for name in ["aarch", "arm64", "ARM64", "Aarch64-Linux-OHOS", "AARCH64-UNKNOWN-LINUX-OHOS"] {
        assert_eq!(OhosArch::from_str(name), Ok(OhosArch::ARM64));
    }
    for name in ["arm", "ARM32", "arm-linux-ohos", "armv7-unknown-linux-ohos"] {
        assert_eq!(OhosArch::from_str(name), Ok(OhosArch::ARM32));
    }
    for name in ["x86_64", "X64", "x86_64-linux-ohos", "x86_64-unknown-linux-ohos"] {
        assert_eq!(OhosArch::from_str(name), Ok(OhosArch::X86_64));
    }
}

#[test]
fn ohos_from_str_refuses_other_names() {
    let message = "Only supports aarch/arm64, arm/arm32, and x86_64/x64 architectures.".to_string();
    for name in ["", "mips", "arm6", "AARCH64_UNKNOWN_LINUX_OHOS", "x86"] {
        assert_eq!(OhosArch::from_str(name), Err(message.clone()));
    }
    assert_eq!(OhosArch::from_lowered("AARCH64_UNKNOWN_LINUX_OHOS"), Ok(OhosArch::ARM64));
    assert_eq!(OhosArch::from_lowered("ARM64"), Err(message));
}

#[test]
fn common_path_is_the_shared_start() {
    assert_eq!(find_common_path(&path(&["/", "a", "b", "c"]), &path(&["/", "a", "x", "c"])), path(&["/", "a"]));
    assert_eq!(find_common_path(&path(&["/", "a"]), &path(&["/", "a", "b"])), path(&["/", "a"]));
    assert_eq!(find_common_path(&path(&["a"]), &path(&["b"])), path(&[]));
    assert_eq!(find_common_path(&path(&[]), &path(&["b"])), path(&[]));
    assert_eq!(find_common_path(&path(&["a", "b"]), &path(&["a", "b"])), path(&["a", "b"]));
}

#[test]
fn relative_path_climbs_out_of_what_is_not_shared() {
    assert_eq!(to_relative(&path(&["/", "w", "target", "lib.a"]), &path(&["/", "w", "crate", "sub"])), path(&["..", "..", "target", "lib.a"]));
    assert_eq!(to_relative(&path(&["/", "w", "crate", "out"]), &path(&["/", "w", "crate"])), path(&["out"]));
    assert_eq!(to_relative(&path(&["/", "w"]), &path(&["/", "w"])), path(&[]));
    assert_eq!(to_relative(&path(&["/", "w"]), &path(&["/", "w", "a"])), path(&[".."]));
    assert_eq!(to_relative(&path(&["a"]), &path(&[])), path(&["a"]));
}

#[test]
fn swift_stages_run_in_order() {
    let mut seen = vec![];
    let mut stage = Some(first_stage(2));
    while let Some(current) = stage {
        seen.push(current);
        stage = next_stage(Flavor::Swift, current, 2, true);
    }
    assert_eq!(
        seen,
        vec![
            Stage::Build { index: 0 },
            Stage::Build { index: 1 },
            Stage::GenerateBindings,
            Stage::RecreateOutput,
            Stage::Bundle,
            Stage::Package,
        ]
    );
}

#[test]
fn android_stages_run_in_order() {
    let mut seen = vec![];
    let mut stage = Some(first_stage(1));
    while let Some(current) = stage {
        seen.push(current);
        stage = next_stage(Flavor::Android, current, 1, true);
    }
    assert_eq!(seen, vec![Stage::Build { index: 0 }, Stage::GenerateBindings, Stage::Package]);
    assert_eq!(first_stage(0), Stage::GenerateBindings);
}

#[test]
fn a_failed_stage_ends_the_run() {
    for flavor in [Flavor::Swift, Flavor::Android] {
        for stage in [Stage::Build { index: 0 }, Stage::GenerateBindings, Stage::RecreateOutput, Stage::Bundle, Stage::Package] {
            assert_eq!(next_stage(flavor, stage, 3, false), None);
        }
    }
    assert_eq!(next_stage(Flavor::Swift, Stage::Build { index: usize::MAX }, 3, true), Some(Stage::GenerateBindings));
}
