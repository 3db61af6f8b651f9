//! External process invocations as plain values: a program, its arguments
//! and the environment overrides to run it with.

use vstd::prelude::*;
use vstd::string::*;

verus! {

/// One external process invocation. Arguments and environment overrides
/// are kept in the order in which they were added.
#[derive(Debug, Clone, PartialEq, Eq)]
pub struct Invocation {
    pub program: String,
    pub args: Vec<String>,
    pub envs: Vec<(String, String)>,
}

pub ghost struct InvocationView {
    pub program: Seq<char>,
    pub args: Seq<Seq<char>>,
    pub envs: Seq<(Seq<char>, Seq<char>)>,
}

impl View for Invocation {
    type V = InvocationView;

    open spec fn view(&self) -> InvocationView {
        InvocationView {
            program: self.program@,
            args: self.args.deep_view(),
            envs: self.envs.deep_view(),
        }
    }
}

/// The views of a list of invocations, in order.
pub open spec fn plan_view(plan: Seq<Invocation>) -> Seq<InvocationView> {
    plan.map_values(|c: Invocation| c@)
}

/// Pushing an invocation onto a plan pushes its view onto the plan's view.
pub proof fn lemma_push_invocation(plan: Seq<Invocation>, c: Invocation)
    ensures
        plan_view(plan.push(c)) == plan_view(plan).push(c@),
{
    assert(plan_view(plan.push(c)) =~= plan_view(plan).push(c@));
}

/// The program and the arguments that `execute::command` reads from a
/// command line. The tokenizer's handling of quotes, escapes and white
/// space is not restated here.
pub uninterp spec fn command_line(line: Seq<char>) -> (Seq<char>, Seq<Seq<char>>);

/// `execute::command`: splits a command line into a program and its
/// arguments. The result depends on the characters of the line alone; it is
/// only named. The command that comes back carries no environment override.
#[verifier::external_body]
fn tokenize(line: &str) -> (r: (String, Vec<String>))
    ensures
        r.0@ == command_line(line@).0,
        r.1.deep_view() == command_line(line@).1,
{
    let parsed = execute::command(line);
    let program = parsed.get_program().to_string_lossy().into_owned();
    let args = parsed.get_args().map(|a| a.to_string_lossy().into_owned()).collect();
    (program, args)
}

/// The invocation that a command line stands for.
pub open spec fn parsed(line: Seq<char>) -> InvocationView {
    InvocationView {
        program: command_line(line).0,
        args: command_line(line).1,
        envs: Seq::empty(),
    }
}

impl InvocationView {
    pub open spec fn arg(self, a: Seq<char>) -> InvocationView {
        InvocationView { args: self.args.push(a), ..self }
    }

    pub open spec fn args(self, more: Seq<Seq<char>>) -> InvocationView {
        InvocationView { args: self.args + more, ..self }
    }

    pub open spec fn env(self, name: Seq<char>, value: Seq<char>) -> InvocationView {
        InvocationView { envs: self.envs.push((name, value)), ..self }
    }
}

/// The invocations that a list of command lines stands for, in order.
pub open spec fn parsed_lines(lines: Seq<Seq<char>>) -> Seq<InvocationView> {
    lines.map_values(|line: Seq<char>| parsed(line))
}

/// Reads every command line of a list.
pub fn parse_lines(lines: &Vec<String>) -> (plan: Vec<Invocation>)
    ensures
        plan_view(plan@) == parsed_lines(lines.deep_view()),
{
    let mut plan: Vec<Invocation> = Vec::new();
    let ghost goal = parsed_lines(lines.deep_view());
    assert(plan_view(plan@) =~= goal.take(0));
    for i in 0..lines.len()
        invariant
            goal == parsed_lines(lines.deep_view()),
            plan_view(plan@) == goal.take(i as int),
    {
        let cmd = Invocation::parse(lines[i].as_str());
        proof {
            lemma_push_invocation(plan@, cmd);
        }
        plan.push(cmd);
        assert(plan_view(plan@) =~= goal.take(i + 1));
    }
    assert(goal.take(lines@.len() as int) =~= goal);
    plan
}

/// A plan in which every invocation carries one more environment override.
pub open spec fn with_env_on_all(
    plan: Seq<InvocationView>,
    name: Seq<char>,
    value: Seq<char>,
) -> Seq<InvocationView> {
    plan.map_values(|c: InvocationView| c.env(name, value))
}

/// Adds one environment override to every invocation of a plan.
pub fn set_env_on_all(plan: &mut Vec<Invocation>, name: &str, value: &str)
    ensures
        plan_view(final(plan)@) == with_env_on_all(plan_view(old(plan)@), name@, value@),
{
    let ghost before = plan_view(plan@);
    let n = plan.len();
    for i in 0..n
        invariant
            n == plan@.len(),
            before.len() == n,
            forall|j: int| 0 <= j < i ==> #[trigger] plan@[j]@ == before[j].env(name@, value@),
            forall|j: int| i <= j < n ==> #[trigger] plan@[j]@ == before[j],
    {
        plan[i].env(name, value);
    }
    assert(plan_view(plan@) =~= with_env_on_all(before, name@, value@));
}

impl Invocation {
    /// An invocation of a program with the given arguments and without
    /// environment overrides.
    pub fn new(program: String, args: Vec<String>) -> (r: Invocation)
        ensures
            r@ == (InvocationView {
                program: program@,
                args: args.deep_view(),
                envs: Seq::empty(),
            }),
    {
        let r = Invocation { program, args, envs: Vec::new() };
        assert(r.envs.deep_view() =~= Seq::empty());
        r
    }

    /// Reads a command line into a program and its arguments.
    pub fn parse(line: &str) -> (r: Invocation)
        ensures
            r@ == parsed(line@),
    {
        let (program, args) = tokenize(line);
        Invocation::new(program, args)
    }

    /// Appends one argument.
    pub fn arg(&mut self, a: &str)
        ensures
            final(self)@ == old(self)@.arg(a@),
    {
        self.args.push(String::from_str(a));
        assert(self.args.deep_view() =~= old(self).args.deep_view().push(a@));
    }

    /// Appends one environment override.
    pub fn env(&mut self, name: &str, value: &str)
        ensures
            final(self)@ == old(self)@.env(name@, value@),
    {
        self.envs.push((String::from_str(name), String::from_str(value)));
        assert(self.envs.deep_view() =~= old(self).envs.deep_view().push((name@, value@)));
    }
}

} // verus!
