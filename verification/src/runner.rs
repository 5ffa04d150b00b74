//! Running one script: how the shell is started on it, and what is kept of
//! the run.
//!
//! The process itself is started outside this library. The library says
//! with which program and arguments, takes what the process left behind as
//! an [`ExecutionResult`], and words the line that is logged for it.

use vstd::prelude::*;
use crate::text::texts;

verus! {

/// How a script is started: a program and its arguments.
#[derive(Clone, Debug, PartialEq, Eq)]
pub struct ShellCommand {
    pub program: String,
    pub arguments: Vec<String>,
}

/// The mathematical value of a [`ShellCommand`].
pub struct CommandView {
    pub program: Seq<char>,
    pub arguments: Seq<Seq<char>>,
}

impl View for ShellCommand {
    type V = CommandView;

    open spec fn view(&self) -> CommandView {
        CommandView { program: self.program@, arguments: texts(self.arguments@) }
    }
}

/// The command that runs the script at `path`: `sh -c` with the whole path
/// as one argument, so that the shell interprets it and a configured name
/// may hold arguments or a pipeline.
pub open spec fn shell_invocation(path: Seq<char>) -> CommandView {
    CommandView { program: "sh"@, arguments: seq!["-c"@, path] }
}

/// Builds the command that runs the script at `path`.
pub fn shell_command(path: &str) -> (command: ShellCommand)
    ensures
        command@ == shell_invocation(path@),
{
    let mut arguments: Vec<String> = Vec::new();
    arguments.push("-c".to_owned());
    arguments.push(path.to_owned());
    let command = ShellCommand { program: "sh".to_owned(), arguments };
    assert(command@.arguments =~= shell_invocation(path@).arguments);
    command
}

/// How a run ended.
#[derive(Clone, Debug, PartialEq, Eq)]
pub enum Outcome {
    /// The process started and ended. `code` is its exit code, of any
    /// value; it is `None` where the process ended without one, as when a
    /// signal ended it.
    Exited { code: Option<i32> },
    /// The process could not be started; `reason` says why.
    StartFailure { reason: String },
}

/// The mathematical value of a [`Outcome`].
pub enum OutcomeView {
    Exited { code: Option<i32> },
    StartFailure { reason: Seq<char> },
}

impl View for Outcome {
    type V = OutcomeView;

    open spec fn view(&self) -> OutcomeView {
        match *self {
            Outcome::Exited { code } => OutcomeView::Exited { code },
            Outcome::StartFailure { reason } => OutcomeView::StartFailure { reason: reason@ },
        }
    }
}

/// What one run of a script left behind.
#[derive(Clone, Debug, PartialEq, Eq)]
pub struct ExecutionResult {
    /// The path that was run.
    pub script_path: String,
    /// What the process wrote to its standard output.
    pub stdout: Vec<u8>,
    /// What the process wrote to its standard error.
    pub stderr: Vec<u8>,
    /// How the run ended.
    pub outcome: Outcome,
}

/// The mathematical value of an [`ExecutionResult`].
pub struct ResultView {
    pub script_path: Seq<char>,
    pub stdout: Seq<u8>,
    pub stderr: Seq<u8>,
    pub outcome: OutcomeView,
}

impl View for ExecutionResult {
    type V = ResultView;

    open spec fn view(&self) -> ResultView {
        ResultView {
            script_path: self.script_path@,
            stdout: self.stdout@,
            stderr: self.stderr@,
            outcome: self.outcome@,
        }
    }
}

/// The text that `String::from_utf8_lossy` makes of bytes.
pub uninterp spec fn utf8_lossy(bytes: Seq<u8>) -> Seq<char>;

/// Calls `String::from_utf8_lossy`, which reads bytes as UTF-8 and puts
/// U+FFFD for what is none, and takes the text as a `String`. The contract
/// claims that the text depends on the bytes alone, and gives it the name
/// `utf8_lossy`.
#[verifier::external_body]
fn lossy_text(bytes: &Vec<u8>) -> (text: String)
    ensures
        text@ == utf8_lossy(bytes@),
{
    String::from_utf8_lossy(bytes).into_owned()
}

/// The line for a run that started: the script's name, ` output: `, and the
/// output as text.
pub open spec fn output_text(script: Seq<char>, output: Seq<char>) -> Seq<char> {
    script + " output: "@ + output
}

/// The line for a run that could not start: the script's name,
/// ` failed to start: `, the reason, and a line feed.
pub open spec fn failure_text(script: Seq<char>, reason: Seq<char>) -> Seq<char> {
    script + " failed to start: "@ + reason + "\n"@
}

/// The line that is logged for a run of the script named `script`.
pub open spec fn log_text(script: Seq<char>, result: ResultView) -> Seq<char> {
    match result.outcome {
        OutcomeView::Exited { code } => output_text(script, utf8_lossy(result.stdout)),
        OutcomeView::StartFailure { reason } => failure_text(script, reason),
    }
}

/// Words the line for a run that started.
pub fn output_line(script: &str, output: &str) -> (line: String)
    ensures
        line@ == output_text(script@, output@),
{
    script.to_owned().concat(" output: ").concat(output)
}

/// Words the line for a run that could not start.
pub fn failure_line(script: &str, reason: &str) -> (line: String)
    ensures
        line@ == failure_text(script@, reason@),
{
    script.to_owned().concat(" failed to start: ").concat(reason).concat("\n")
}

impl ExecutionResult {
    /// The result of a run that started and ended, with any exit code.
    pub fn completed(
        script_path: String,
        stdout: Vec<u8>,
        stderr: Vec<u8>,
        code: Option<i32>,
    ) -> (result: ExecutionResult)
        ensures
            result@ == (ResultView {
                script_path: script_path@,
                stdout: stdout@,
                stderr: stderr@,
                outcome: OutcomeView::Exited { code },
            }),
    {
        ExecutionResult { script_path, stdout, stderr, outcome: Outcome::Exited { code } }
    }

    /// The result of a run that could not start. It has no output.
    pub fn start_failure(script_path: String, reason: String) -> (result: ExecutionResult)
        ensures
            result@ == (ResultView {
                script_path: script_path@,
                stdout: Seq::<u8>::empty(),
                stderr: Seq::<u8>::empty(),
                outcome: OutcomeView::StartFailure { reason: reason@ },
            }),
    {
        ExecutionResult {
            script_path,
            stdout: Vec::new(),
            stderr: Vec::new(),
            outcome: Outcome::StartFailure { reason },
        }
    }

    /// Whether the process started.
    pub fn started(&self) -> (started: bool)
        ensures
            started == (self@.outcome is Exited),
    {
        match &self.outcome {
            Outcome::Exited { .. } => true,
            Outcome::StartFailure { .. } => false,
        }
    }

    /// The line that is logged for this run of the script named `script`.
    pub fn log_line(&self, script: &str) -> (line: String)
        ensures
            line@ == log_text(script@, self@),
    {
        match &self.outcome {
            Outcome::Exited { .. } => {
                let output = lossy_text(&self.stdout);
                output_line(script, output.as_str())
            },
            Outcome::StartFailure { reason } => failure_line(script, reason.as_str()),
        }
    }
}

} // verus!
