//! What the run of an external command amounts to.

use vstd::prelude::*;
use crate::error::{message_text, ToolError, ToolErrorView};
use crate::json::{canonical, json_canonical};

verus! {

/// What became of the attempt to run a command, as the caller saw it.
#[derive(Clone, Debug)]
pub enum ProcessOutcome {
    /// The command could not be started; `cause` says why.
    SpawnFailed { cause: String },
    /// The command ran to its end. `success` tells whether it reported
    /// success; `stdout` and `stderr` hold all that it wrote.
    Exited { success: bool, stdout: String, stderr: String },
}

/// A `ProcessOutcome` with its texts as sequences of characters.
pub enum ProcessOutcomeView {
    SpawnFailed { cause: Seq<char> },
    Exited { success: bool, stdout: Seq<char>, stderr: Seq<char> },
}

impl View for ProcessOutcome {
    type V = ProcessOutcomeView;

    open spec fn view(&self) -> ProcessOutcomeView {
        match *self {
            ProcessOutcome::SpawnFailed { cause } => ProcessOutcomeView::SpawnFailed {
                cause: cause@,
            },
            ProcessOutcome::Exited { success, stdout, stderr } => ProcessOutcomeView::Exited {
                success,
                stdout: stdout@,
                stderr: stderr@,
            },
        }
    }
}

/// The result of running `command`, given what became of the run.
///
/// A command that did not start, or that reported failure, is an error; the
/// latter carries all of the command's error output. A command that
/// succeeded must have printed exactly one JSON value, which is returned in
/// compact form.
pub open spec fn invoked(command: Seq<char>, outcome: ProcessOutcomeView) -> Result<
    Seq<char>,
    ToolErrorView,
> {
    match outcome {
        ProcessOutcomeView::SpawnFailed { cause } => Err(
            ToolErrorView::SpawnFailed { command, cause },
        ),
        ProcessOutcomeView::Exited { success, stdout, stderr } => if !success {
            Err(ToolErrorView::CommandFailed { command, stderr })
        } else {
            match json_canonical(stdout) {
                Ok(compact) => Ok(compact),
                Err(parse_error) => Err(ToolErrorView::InvalidOutputFormat { command, parse_error }),
            }
        },
    }
}

/// Whether `r` is the result `expected`, text for text.
pub open spec fn results_in(r: Result<String, ToolError>, expected: Result<Seq<char>, ToolErrorView>) -> bool {
    match r {
        Ok(s) => expected == Ok::<Seq<char>, ToolErrorView>(s@),
        Err(e) => expected == Err::<Seq<char>, ToolErrorView>(e@),
    }
}

/// Turns what became of the run of `command` into the result of the
/// invocation.
pub fn process_result(command: &str, outcome: ProcessOutcome) -> (r: Result<String, ToolError>)
    ensures
        results_in(r, invoked(command@, outcome@)),
{
    match outcome {
        ProcessOutcome::SpawnFailed { cause } => Err(
            ToolError::SpawnFailed { command: String::from_str(command), cause },
        ),
        ProcessOutcome::Exited { success, stdout, stderr } => {
            if !success {
                Err(ToolError::CommandFailed { command: String::from_str(command), stderr })
            } else {
                match canonical(stdout.as_str()) {
                    Ok(compact) => Ok(compact),
                    Err(parse_error) => Err(
                        ToolError::InvalidOutputFormat {
                            command: String::from_str(command),
                            parse_error,
                        },
                    ),
                }
            }
        },
    }
}

/// A command that succeeds without printing well-formed JSON is rejected as
/// such: its output never comes back as a result.
pub proof fn lemma_malformed_output_is_rejected(
    command: Seq<char>,
    stdout: Seq<char>,
    stderr: Seq<char>,
)
    requires
        json_canonical(stdout) is Err,
    ensures
        invoked(command, ProcessOutcomeView::Exited { success: true, stdout, stderr }) == Err::<
            Seq<char>,
            ToolErrorView,
        >(
            ToolErrorView::InvalidOutputFormat {
                command,
                parse_error: json_canonical(stdout)->Err_0,
            },
        ),
{
}

/// A command that reports failure gives an error whose message ends with
/// everything the command wrote to its error output, unchanged.
pub proof fn lemma_failure_carries_stderr(command: Seq<char>, stdout: Seq<char>, stderr: Seq<char>)
    ensures
        invoked(command, ProcessOutcomeView::Exited { success: false, stdout, stderr }) is Err,
        ({
            let e = invoked(
                command,
                ProcessOutcomeView::Exited { success: false, stdout, stderr },
            )->Err_0;
            let m = message_text(e);
            &&& e == ToolErrorView::CommandFailed { command, stderr }
            &&& m.len() >= stderr.len()
            &&& m.subrange(m.len() - stderr.len(), m.len() as int) == stderr
        }),
{
    let m = "Command failed: "@ + stderr;
    assert(m.subrange(m.len() - stderr.len(), m.len() as int) =~= stderr);
}

} // verus!
