//! Running a step: what is shown for it, and what happens after each of
//! its commands has ended.

use vstd::prelude::*;
use vstd::string::*;
use crate::common::command::{plan_view, Invocation, InvocationView};
use crate::common::models::Config;

verus! {

/// A step made of commands: what is shown while it runs, and the commands
/// to run one after another.
#[derive(Debug, Clone, PartialEq, Eq)]
pub struct BuildStep {
    pub title: String,
    pub commands: Vec<Invocation>,
}

pub ghost struct BuildStepView {
    pub title: Seq<char>,
    pub commands: Seq<InvocationView>,
}

impl View for BuildStep {
    type V = BuildStepView;

    open spec fn view(&self) -> BuildStepView {
        BuildStepView { title: self.title@, commands: plan_view(self.commands@) }
    }
}

/// The views of a list of steps, in order.
pub open spec fn build_steps_view(steps: Seq<BuildStep>) -> Seq<BuildStepView> {
    steps.map_values(|s: BuildStep| s@)
}

/// Pushing a step onto a list pushes its view onto the list's view.
pub proof fn lemma_push_build_step(steps: Seq<BuildStep>, s: BuildStep)
    ensures
        build_steps_view(steps.push(s)) == build_steps_view(steps).push(s@),
{
    assert(build_steps_view(steps.push(s)) =~= build_steps_view(steps).push(s@));
}

/// How the progress display of a step ends.
#[derive(Clone, Copy, Debug, PartialEq, Eq, Structural)]
pub enum Spinner {
    Finish,
    Fail,
}

/// The result of a step together with the end of its progress display.
/// A silent run has no display.
pub struct StepReport<T, X> {
    pub result: Result<T, X>,
    pub spinner: Option<Spinner>,
}

/// The end of the display that goes with a result.
pub open spec fn spinner_for(silent: bool, succeeded: bool) -> Option<Spinner> {
    if silent {
        None
    } else if succeeded {
        Some(Spinner::Finish)
    } else {
        Some(Spinner::Fail)
    }
}

/// The title to show while a step runs: none in a silent run.
pub fn step_title(config: &Config, title: &str) -> (r: Option<String>)
    ensures
        match r {
            Some(shown) => !config.silent && shown@ == title@,
            None => config.silent,
        },
{
    if config.silent {
        None
    } else {
        Some(String::from_str(title))
    }
}

/// Runs one step and reports its result unchanged, together with how its
/// display ends: finished after success, failed after an error.
pub fn run_step<T, X, E: FnOnce() -> Result<T, X>>(config: &Config, execute: E) -> (r: StepReport<
    T,
    X,
>)
    requires
        call_requires(execute, ()),
    ensures
        call_ensures(execute, (), r.result),
        r.spinner == spinner_for(config.silent, r.result is Ok),
{
    let result = execute();
    let spinner = if config.silent {
        None
    } else {
        match &result {
            Ok(_) => Some(Spinner::Finish),
            Err(_) => Some(Spinner::Fail),
        }
    };
    StepReport { result, spinner }
}

/// How one command ended: whether it exited with success, and what it
/// wrote to its error stream.
#[derive(Debug, Clone, PartialEq, Eq)]
pub struct CommandOutput {
    pub success: bool,
    pub stderr: String,
}

/// What to do next in a step made of commands.
#[derive(Debug, PartialEq, Eq)]
pub enum StepAction {
    /// Run the command at this position and report how it ended.
    Run { index: usize },
    /// Every command succeeded: the step is done.
    Finish,
    /// A command failed: the step ends with its error output as the error.
    /// `echo` is what to print right away, if the command wrote anything.
    Fail { message: String, echo: Option<String> },
}

pub ghost enum StepActionView {
    Run { index: usize },
    Finish,
    Fail { message: Seq<char>, echo: Option<Seq<char>> },
}

impl View for StepAction {
    type V = StepActionView;

    open spec fn view(&self) -> StepActionView {
        match self {
            StepAction::Run { index } => StepActionView::Run { index: *index },
            StepAction::Finish => StepActionView::Finish,
            StepAction::Fail { message, echo } => StepActionView::Fail {
                message: message@,
                echo: match echo {
                    Some(text) => Some(text@),
                    None => None,
                },
            },
        }
    }
}

/// The position of the first command that failed, if one did.
pub open spec fn first_failure(outputs: Seq<CommandOutput>) -> Option<int>
    decreases outputs.len(),
{
    if outputs.len() == 0 {
        None
    } else {
        match first_failure(outputs.drop_last()) {
            Some(i) => Some(i),
            None => if outputs.last().success {
                None
            } else {
                Some(outputs.len() - 1)
            },
        }
    }
}

/// What is printed when a command fails after writing to its error stream.
pub open spec fn stderr_echo(stderr: Seq<char>) -> Option<Seq<char>> {
    if stderr.len() == 0 {
        None
    } else {
        Some("\n==== STDERR OUTPUT ====\n"@ + stderr)
    }
}

/// The action that follows the outputs seen so far: a failure ends the
/// step at once, otherwise the next command runs, and after the last
/// command the step is done.
pub open spec fn next_action(total: nat, outputs: Seq<CommandOutput>) -> StepActionView {
    match first_failure(outputs) {
        Some(i) => StepActionView::Fail {
            message: outputs[i].stderr@,
            echo: stderr_echo(outputs[i].stderr@),
        },
        None => if outputs.len() < total {
            StepActionView::Run { index: outputs.len() as usize }
        } else {
            StepActionView::Finish
        },
    }
}

/// Decides how a step made of commands goes on. `outputs` holds how the
/// commands run so far have ended, in the order in which they ran. The
/// commands run one after another; the first that fails ends the step.
pub fn run_step_with_commands(commands: &Vec<Invocation>, outputs: &Vec<CommandOutput>) -> (r:
    StepAction)
    ensures
        r@ == next_action(commands@.len(), outputs@),
{
    let ghost all = outputs@;
    for i in 0..outputs.len()
        invariant
            all == outputs@,
            first_failure(all.take(i as int)) is None,
    {
        proof {
            assert(all.take(i + 1).drop_last() =~= all.take(i as int));
            assert(all.take(i + 1).last() == all[i as int]);
        }
        if !outputs[i].success {
            proof {
                lemma_first_failure_prefix(all, i + 1);
            }
            let stderr = &outputs[i].stderr;
            let echo = if stderr.as_str().is_empty() {
                None
            } else {
                Some(String::from_str("\n==== STDERR OUTPUT ====\n").concat(stderr.as_str()))
            };
            return StepAction::Fail { message: stderr.clone(), echo };
        }
    }
    proof {
        assert(all.take(outputs.len() as int) =~= all);
    }
    if outputs.len() < commands.len() {
        StepAction::Run { index: outputs.len() }
    } else {
        StepAction::Finish
    }
}

/// A failure among the first outputs is the first failure of all outputs.
pub proof fn lemma_first_failure_prefix(outputs: Seq<CommandOutput>, k: int)
    requires
        0 <= k <= outputs.len(),
        first_failure(outputs.take(k)) is Some,
    ensures
        first_failure(outputs) == first_failure(outputs.take(k)),
    decreases outputs.len() - k,
{
    if k < outputs.len() {
        assert(outputs.drop_last().take(k) =~= outputs.take(k));
        lemma_first_failure_prefix(outputs.drop_last(), k);
    } else {
        assert(outputs.take(k) =~= outputs);
    }
}

/// The first failure is a failure, and every command before it succeeded.
pub proof fn lemma_first_failure_is_first(outputs: Seq<CommandOutput>)
    ensures
        match first_failure(outputs) {
            Some(i) => 0 <= i < outputs.len() && !outputs[i].success && forall|j: int|
                0 <= j < i ==> outputs[j].success,
            None => forall|j: int| 0 <= j < outputs.len() ==> outputs[j].success,
        },
    decreases outputs.len(),
{
    if outputs.len() > 0 {
        let earlier = outputs.drop_last();
        lemma_first_failure_is_first(earlier);
        assert forall|j: int| 0 <= j < earlier.len() implies earlier[j] == outputs[j] by {}
        match first_failure(earlier) {
            Some(i) => {
                assert forall|j: int| 0 <= j < i implies outputs[j].success by {
                    assert(earlier[j].success);
                }
            },
            None => {
                assert forall|j: int| 0 <= j < earlier.len() implies outputs[j].success by {
                    assert(earlier[j].success);
                }
            },
        }
    }
}

} // verus!
