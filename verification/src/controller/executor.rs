//! The command executor: what a run of the service manager's control command amounts
//! to, whether it ended or could not be started.

use crate::error::{ExecError, ExecErrorView};
use vstd::prelude::*;
use vstd::string::*;
use vstd::utf8::{decode_utf8, valid_utf8};

verus! {

/// How a run of the control command ended.
#[derive(Debug, Clone, PartialEq, Eq)]
pub enum CommandOutcome {
    /// The command could not be started; `cause` is the operating system's reason.
    SpawnFailed { cause: String },
    /// The command ran to its end. `exit_code` is `None` where a signal ended it.
    Exited { exit_code: Option<i32>, stdout: Vec<u8>, stderr: Vec<u8> },
}

/// The mathematical content of a [`CommandOutcome`].
pub enum CommandOutcomeView {
    SpawnFailed { cause: Seq<char> },
    Exited { exit_code: Option<i32>, stdout: Seq<u8>, stderr: Seq<u8> },
}

impl View for CommandOutcome {
    type V = CommandOutcomeView;

    open spec fn view(&self) -> CommandOutcomeView {
        match *self {
            CommandOutcome::SpawnFailed { cause } => CommandOutcomeView::SpawnFailed {
                cause: cause@,
            },
            CommandOutcome::Exited { exit_code, stdout, stderr } => CommandOutcomeView::Exited {
                exit_code,
                stdout: stdout@,
                stderr: stderr@,
            },
        }
    }
}

/// The text that `String::from_utf8_lossy` makes of `bytes`.
pub uninterp spec fn lossy_text(bytes: Seq<u8>) -> Seq<char>;

/// The text that `bytes` encode where they are valid UTF-8; the empty text where not.
pub open spec fn strict_text(bytes: Seq<u8>) -> Seq<char> {
    if valid_utf8(bytes) {
        decode_utf8(bytes)
    } else {
        Seq::<char>::empty()
    }
}

/// `String::from_utf8_lossy` of std. Trusted: the result is a function of the bytes
/// alone, named [`lossy_text`]; valid UTF-8 is decoded as it stands, and only invalid
/// sequences are replaced.
#[verifier::external_body]
fn decode_lossy(bytes: &Vec<u8>) -> (text: String)
    ensures
        text@ == lossy_text(bytes@),
        valid_utf8(bytes@) ==> text@ == decode_utf8(bytes@),
{
    String::from_utf8_lossy(bytes).into_owned()
}

/// `std::str::from_utf8` of std. Trusted: it succeeds exactly on valid UTF-8, with the
/// text that the bytes encode.
#[verifier::external_body]
fn decode_strict(bytes: &Vec<u8>) -> (text: Option<String>)
    ensures
        text is Some <==> valid_utf8(bytes@),
        text matches Some(s) ==> s@ == decode_utf8(bytes@),
{
    std::str::from_utf8(bytes).ok().map(String::from)
}

/// The mathematical content of the executor's result.
pub open spec fn text_result_view(r: Result<String, ExecError>) -> Result<
    Seq<char>,
    ExecErrorView,
> {
    match r {
        Ok(text) => Ok(text@),
        Err(e) => Err(e@),
    }
}

/// The mathematical content of the executor's result where the output is dropped.
pub open spec fn unit_result_view(r: Result<(), ExecError>) -> Result<(), ExecErrorView> {
    match r {
        Ok(_) => Ok(()),
        Err(e) => Err(e@),
    }
}

/// What a run that ended amounts to: exit code 0 gives the standard output; anything
/// else, a signal too, is a command error with the code and the error output.
pub open spec fn exit_verdict(
    command: Seq<char>,
    exit_code: Option<i32>,
    stdout: Seq<char>,
    stderr: Seq<char>,
) -> Result<Seq<char>, ExecErrorView> {
    if exit_code == Some(0i32) {
        Ok(stdout)
    } else {
        Err(ExecErrorView::CommandError { command, exit_code, stderr })
    }
}

/// What an outcome of the command named `command` amounts to. The standard output is
/// decoded with replacement of what is not UTF-8, the error output strictly.
pub open spec fn execute_verdict(command: Seq<char>, outcome: CommandOutcomeView) -> Result<
    Seq<char>,
    ExecErrorView,
> {
    match outcome {
        CommandOutcomeView::SpawnFailed { cause } => Err(
            ExecErrorView::SpawnError { command, cause },
        ),
        CommandOutcomeView::Exited { exit_code, stdout, stderr } => exit_verdict(
            command,
            exit_code,
            lossy_text(stdout),
            strict_text(stderr),
        ),
    }
}

/// The verdict on a run of `command` that ended with `exit_code`, given both output
/// streams as text.
pub fn command_result(command: &str, exit_code: Option<i32>, stdout: String, stderr: String) -> (r:
    Result<String, ExecError>)
    ensures
        text_result_view(r) == exit_verdict(command@, exit_code, stdout@, stderr@),
{
    let succeeded = match exit_code {
        Some(code) => code == 0,
        None => false,
    };
    if succeeded {
        Ok(stdout)
    } else {
        Err(ExecError::CommandError { command: String::from_str(command), exit_code, stderr })
    }
}

/// The verdict on a run of the command that messages call `command`: the standard
/// output on success, else the error. A command that could not be started is a spawn
/// error, never a command error.
pub fn execute_result(command: &str, outcome: CommandOutcome) -> (r: Result<String, ExecError>)
    ensures
        text_result_view(r) == execute_verdict(command@, outcome@),
{
    match outcome {
        CommandOutcome::SpawnFailed { cause } => Err(
            ExecError::SpawnError { command: String::from_str(command), cause },
        ),
        CommandOutcome::Exited { exit_code, stdout, stderr } => {
            let out = decode_lossy(&stdout);
            let err = match decode_strict(&stderr) {
                Some(text) => text,
                None => String::new(),
            };
            command_result(command, exit_code, out, err)
        },
    }
}

/// What a run of the command gives to the log for information: the standard output of
/// a run that succeeded, where there is any.
pub open spec fn informational_text(outcome: CommandOutcomeView) -> Option<Seq<char>> {
    match outcome {
        CommandOutcomeView::Exited { exit_code, stdout, stderr } => if exit_code == Some(0i32)
            && stdout.len() > 0 {
            Some(lossy_text(stdout))
        } else {
            None
        },
        CommandOutcomeView::SpawnFailed { .. } => None,
    }
}

/// The text to log for information after a run of the command, if there is one.
pub fn informational_output(outcome: &CommandOutcome) -> (text: Option<String>)
    ensures
        match informational_text(outcome@) {
            Some(t) => text matches Some(s) && s@ == t,
            None => text is None,
        },
{
    match outcome {
        CommandOutcome::Exited { exit_code, stdout, .. } => {
            let succeeded = match exit_code {
                Some(code) => *code == 0,
                None => false,
            };
            if succeeded && stdout.len() > 0 {
                Some(decode_lossy(stdout))
            } else {
                None
            }
        },
        CommandOutcome::SpawnFailed { .. } => None,
    }
}

/// The verdict on a run of the control command with the arguments `args`, of which the
/// first names the command in messages.
pub fn systemctl_execute_with_result(args: &Vec<String>, outcome: CommandOutcome) -> (r: Result<
    String,
    ExecError,
>)
    requires
        args.len() > 0,
    ensures
        text_result_view(r) == execute_verdict(args[0]@, outcome@),
{
    execute_result(args[0].as_str(), outcome)
}

/// The verdict on a run of the control command whose output is of no interest.
pub fn systemctl_execute(args: &Vec<String>, outcome: CommandOutcome) -> (r: Result<
    (),
    ExecError,
>)
    requires
        args.len() > 0,
    ensures
        unit_result_view(r) == match execute_verdict(args[0]@, outcome@) {
            Ok(_) => Ok(()),
            Err(e) => Err(e),
        },
{
    match systemctl_execute_with_result(args, outcome) {
        Ok(_) => Ok(()),
        Err(e) => Err(e),
    }
}

} // verus!
