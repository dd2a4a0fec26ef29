//! Commands and installation steps, and the parts of running them that
//! decide something: the result an exit status gives, and the text that is
//! typed into an interactive prompt.
pub mod pacman;

use crate::error::Error;
use vstd::prelude::*;

verus! {

/// A program to run, with its arguments.
pub struct Command {
    pub program: String,
    pub args: Vec<String>,
}

/// What a [`Command`] stands for: the program's name and its argument list.
pub struct CommandView {
    pub program: Seq<char>,
    pub args: Seq<Seq<char>>,
}

impl View for Command {
    type V = CommandView;

    open spec fn view(&self) -> CommandView {
        CommandView { program: self.program@, args: self.args.deep_view() }
    }
}

impl DeepView for Command {
    type V = CommandView;

    open spec fn deep_view(&self) -> CommandView {
        self@
    }
}

/// A command line built from its program name and arguments.
pub open spec fn command_line(program: Seq<char>, args: Seq<Seq<char>>) -> CommandView {
    CommandView { program, args }
}

/// A command run inside the new system: `arch-chroot /mnt` followed by `args`.
pub open spec fn chroot_line(args: Seq<Seq<char>>) -> CommandView {
    command_line("arch-chroot"@, seq!["/mnt"@] + args)
}

/// One step of an installation.
pub enum Step {
    /// Run a command; an unsuccessful exit is reported as an [`Error`], and
    /// `context` names the step when the command cannot be started at all.
    Execute { command: Command, context: String },
    /// Run a command and type `input` into it.
    ExecuteWithInput { command: Command, context: String, input: String },
    /// Run a command, with its standard input a pipe, whose unsuccessful exit
    /// stops the installation.
    Invoke { command: Command },
    /// Append `line`, followed by a newline, to the file at `path`, creating it
    /// if needed; `context` names the step when the file cannot be written.
    Append { path: String, line: String, context: String },
    /// Run a command and append its standard output, followed by a newline,
    /// to the file at `path`, whatever the command's exit status; `context`
    /// names the step when the command cannot be started.
    Capture { command: Command, path: String, context: String },
    /// Create the directory `path` and its parents unless it exists.
    CreateDir { path: String },
    /// Mount `device` on `dir`; when the device is mounted already it is
    /// unmounted and mounted again.
    MountDevice { device: String, dir: String },
    /// Enable the swap space on `device` unless it is active already.
    EnableSwap { device: String },
}

/// What a [`Step`] stands for.
pub enum StepView {
    Execute { command: CommandView, context: Seq<char> },
    ExecuteWithInput { command: CommandView, context: Seq<char>, input: Seq<char> },
    Invoke { command: CommandView },
    Append { path: Seq<char>, line: Seq<char>, context: Seq<char> },
    Capture { command: CommandView, path: Seq<char>, context: Seq<char> },
    CreateDir { path: Seq<char> },
    MountDevice { device: Seq<char>, dir: Seq<char> },
    EnableSwap { device: Seq<char> },
}

impl View for Step {
    type V = StepView;

    open spec fn view(&self) -> StepView {
        match self {
            Step::Execute { command, context } => StepView::Execute {
                command: command@,
                context: context@,
            },
            Step::ExecuteWithInput { command, context, input } => StepView::ExecuteWithInput {
                command: command@,
                context: context@,
                input: input@,
            },
            Step::Invoke { command } => StepView::Invoke { command: command@ },
            Step::Append { path, line, context } => StepView::Append {
                path: path@,
                line: line@,
                context: context@,
            },
            Step::Capture { command, path, context } => StepView::Capture {
                command: command@,
                path: path@,
                context: context@,
            },
            Step::CreateDir { path } => StepView::CreateDir { path: path@ },
            Step::MountDevice { device, dir } => StepView::MountDevice {
                device: device@,
                dir: dir@,
            },
            Step::EnableSwap { device } => StepView::EnableSwap { device: device@ },
        }
    }
}

impl DeepView for Step {
    type V = StepView;

    open spec fn deep_view(&self) -> StepView {
        self@
    }
}

/// Builds a command from a program name and its arguments.
pub fn command(program: &str, args: Vec<String>) -> (res: Command)
    ensures
        res@ == command_line(program@, args.deep_view()),
{
    Command { program: program.to_owned(), args }
}

/// Builds a command that runs inside the new system through `arch-chroot /mnt`.
pub fn chroot(args: Vec<String>) -> (res: Command)
    ensures
        res@ == chroot_line(args.deep_view()),
{
    let mut all: Vec<String> = Vec::new();
    all.push("/mnt".to_owned());
    let mut rest = args;
    let ghost rest0 = rest.deep_view();
    all.append(&mut rest);
    assert(all.deep_view() =~= seq!["/mnt"@] + rest0);
    command("arch-chroot", all)
}

/// Appends the steps of `more` after those of `steps`.
pub fn extend_steps(steps: &mut Vec<Step>, more: Vec<Step>)
    ensures
        final(steps).deep_view() == old(steps).deep_view() + more.deep_view(),
{
    let mut more = more;
    let ghost added = more.deep_view();
    steps.append(&mut more);
    assert(final(steps).deep_view() =~= old(steps).deep_view() + added);
}

/// Runs a command through the executer: `Ok` when it exits successfully,
/// an [`Error`] otherwise.
pub struct Executer;

impl Executer {
    /// The result of a command whose exit status reports `success`.
    pub fn outcome(success: bool) -> (res: Result<(), Error>)
        ensures
            res is Ok <==> success,
    {
        if success {
            Ok(())
        } else {
            Err(Error)
        }
    }
}

/// Where a run of planned steps stands: the position of the step to perform
/// next, or the result of the run.
pub enum Progress {
    Next(usize),
    Done(Result<(), Error>),
}

/// How a run of `total` steps starts: with the first step, or done when there is none.
pub open spec fn started(total: usize) -> Progress {
    if total == 0 {
        Progress::Done(Ok(()))
    } else {
        Progress::Next(0)
    }
}

/// Where a run of `total` steps stands once the step at `index` has been
/// performed with the outcome `ok`: it stops with an error at the first step
/// that fails, goes on with the next step otherwise, and succeeds after the last.
pub open spec fn advanced(total: usize, index: usize, ok: bool) -> Progress {
    if !ok {
        Progress::Done(Err(Error))
    } else if index + 1 < total {
        Progress::Next((index + 1) as usize)
    } else {
        Progress::Done(Ok(()))
    }
}

/// Where a run of `total` steps ends from `progress` when the steps
/// performed from there have the outcomes `outcomes`, in order.
pub open spec fn driven(total: usize, progress: Progress, outcomes: Seq<bool>) -> Progress
    decreases outcomes.len(),
{
    match progress {
        Progress::Next(index) => if outcomes.len() == 0 {
            progress
        } else {
            driven(total, advanced(total, index, outcomes[0]), outcomes.drop_first())
        },
        Progress::Done(_) => progress,
    }
}

impl Progress {
    /// How a run of `total` steps starts.
    pub fn start(total: usize) -> (res: Progress)
        ensures
            res == started(total),
    {
        if total == 0 {
            Progress::Done(Ok(()))
        } else {
            Progress::Next(0)
        }
    }

    /// Where the run stands after the step at `index` had the outcome `outcome`.
    pub fn advance(total: usize, index: usize, outcome: Result<(), Error>) -> (res: Progress)
        requires
            index < total,
        ensures
            res == advanced(total, index, outcome is Ok),
    {
        match outcome {
            Err(_) => Progress::Done(Err(Error)),
            Ok(()) => {
                if index + 1 < total {
                    Progress::Next(index + 1)
                } else {
                    Progress::Done(Ok(()))
                }
            },
        }
    }
}

proof fn lemma_driven_from(total: usize, index: usize, outcomes: Seq<bool>)
    requires
        index < total,
        outcomes.len() == total - index,
    ensures
        driven(total, Progress::Next(index), outcomes) == (if forall|k: int|
            0 <= k < outcomes.len() ==> #[trigger] outcomes[k] {
            Progress::Done(Ok(()))
        } else {
            Progress::Done(Err(Error))
        }),
    decreases outcomes.len(),
{
    let rest = outcomes.drop_first();
    assert(driven(total, Progress::Next(index), outcomes) == driven(
        total,
        advanced(total, index, outcomes[0]),
        rest,
    ));
    if !outcomes[0] {
        assert(driven(total, Progress::Done(Err(Error)), rest) == Progress::Done(Err(Error)));
    } else if index + 1 < total {
        lemma_driven_from(total, (index + 1) as usize, rest);
        if forall|k: int| 0 <= k < rest.len() ==> #[trigger] rest[k] {
            assert forall|k: int| 0 <= k < outcomes.len() implies #[trigger] outcomes[k] by {
                if k > 0 {
                    assert(outcomes[k] == rest[k - 1]);
                }
            }
        } else {
            let k = choose|k: int| 0 <= k < rest.len() && !#[trigger] rest[k];
            assert(!outcomes[k + 1]);
        }
    } else {
        assert forall|k: int| 0 <= k < outcomes.len() implies #[trigger] outcomes[k] by {
            assert(k == 0);
        }
        assert(driven(total, Progress::Done(Ok(())), rest) == Progress::Done(Ok(())));
    }
}

/// A run of planned steps succeeds exactly when every step succeeds, and
/// fails with an error as soon as one fails: no step is performed after a
/// failure.
pub proof fn law_run_stops_at_first_failure(total: usize, outcomes: Seq<bool>)
    requires
        outcomes.len() == total,
    ensures
        driven(total, started(total), outcomes) == (if forall|k: int|
            0 <= k < outcomes.len() ==> #[trigger] outcomes[k] {
            Progress::Done(Ok(()))
        } else {
            Progress::Done(Err(Error))
        }),
{
    if total > 0 {
        lemma_driven_from(total, 0, outcomes);
    }
}

/// The text typed into a prompt: each input followed by a newline.
pub open spec fn prompt_text(inputs: Seq<Seq<char>>) -> Seq<char>
    decreases inputs.len(),
{
    if inputs.len() == 0 {
        Seq::empty()
    } else {
        prompt_text(inputs.drop_last()) + inputs.last() + "\n"@
    }
}

/// The answers given, in order, to the questions of an interactive command.
pub struct PromtInput {
    inputs: Vec<String>,
}

impl PromtInput {
    /// The answers that `ordered_inputs` lists.
    pub closed spec fn inputs(&self) -> Seq<Seq<char>> {
        self.inputs.deep_view()
    }

    pub fn new(ordered_inputs: Vec<String>) -> (res: PromtInput)
        ensures
            res.inputs() == ordered_inputs.deep_view(),
    {
        PromtInput { inputs: ordered_inputs }
    }

    /// The text that answers the prompts: every input on a line of its own.
    pub fn input(self) -> (res: String)
        ensures
            res@ == prompt_text(self.inputs()),
    {
        let mut input = String::new();
        let n = self.inputs.len();
        for i in 0..n
            invariant
                n == self.inputs.len(),
                input@ == prompt_text(self.inputs.deep_view().take(i as int)),
        {
            assert(self.inputs.deep_view().take(i + 1).drop_last()
                =~= self.inputs.deep_view().take(i as int));
            input.append(self.inputs[i].as_str());
            input.append("\n");
        }
        assert(self.inputs.deep_view().take(n as int) =~= self.inputs.deep_view());
        input
    }
}


/// The answers to a sequence of prompts are the answers to its first part
/// followed by those to the rest: every answer stands on its own line, in order.
pub proof fn law_prompt_text_concat(first: Seq<Seq<char>>, rest: Seq<Seq<char>>)
    ensures
        prompt_text(first + rest) == prompt_text(first) + prompt_text(rest),
    decreases rest.len(),
{
    if rest.len() == 0 {
        assert(first + rest =~= first);
        assert(prompt_text(first) + prompt_text(rest) =~= prompt_text(first));
    } else {
        law_prompt_text_concat(first, rest.drop_last());
        assert((first + rest).drop_last() =~= first + rest.drop_last());
        assert((first + rest).last() == rest.last());
        assert(prompt_text(first + rest) =~= prompt_text(first) + prompt_text(rest));
    }
}

} // verus!
