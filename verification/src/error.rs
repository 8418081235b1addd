//! What can go wrong, and the message that each failure carries.

use crate::text::{decimal_string, decimal_text, signed_string, signed_text};
use vstd::prelude::*;
use vstd::string::*;

verus! {

/// A failure reduced to its human-readable message.
#[derive(Debug, Clone, PartialEq, Eq)]
pub struct Error {
    pub message: String,
}

impl View for Error {
    type V = Seq<char>;

    open spec fn view(&self) -> Seq<char> {
        self.message@
    }
}

impl Error {
    /// An error that carries `message`.
    pub fn new(message: &str) -> (e: Error)
        ensures
            e@ == message@,
    {
        Error { message: String::from_str(message) }
    }

    /// The message of this error.
    pub fn description(&self) -> (s: &str)
        ensures
            s@ == self@,
    {
        self.message.as_str()
    }

    /// The text that stands for this error when it is shown: its message.
    pub fn to_text(&self) -> (s: String)
        ensures
            s@ == self@,
    {
        self.message.clone()
    }
}

impl From<&str> for Error {
    /// The error that carries `message`.
    fn from(message: &str) -> (e: Error)
        ensures
            e@ == message@,
    {
        Error::new(message)
    }
}

// No spec function makes a `String` of a `&str`, so the conversion is stated by the
// view of its result, in the `ensures` of `from`, and not as a value.
impl vstd::std_specs::convert::FromSpecImpl<&str> for Error {
    open spec fn obeys_from_spec() -> bool {
        false
    }

    open spec fn from_spec(message: &str) -> Error {
        arbitrary()
    }
}

/// A failure of the command executor.
#[derive(Debug, Clone, PartialEq, Eq)]
pub enum ExecError {
    /// The command could not be started at all.
    SpawnError { command: String, cause: String },
    /// The command ran and did not exit with code 0. `exit_code` is `None` where a
    /// signal ended it.
    CommandError { command: String, exit_code: Option<i32>, stderr: String },
}

/// The mathematical content of an [`ExecError`].
pub enum ExecErrorView {
    SpawnError { command: Seq<char>, cause: Seq<char> },
    CommandError { command: Seq<char>, exit_code: Option<i32>, stderr: Seq<char> },
}

impl View for ExecError {
    type V = ExecErrorView;

    open spec fn view(&self) -> ExecErrorView {
        match *self {
            ExecError::SpawnError { command, cause } => ExecErrorView::SpawnError {
                command: command@,
                cause: cause@,
            },
            ExecError::CommandError { command, exit_code, stderr } => ExecErrorView::CommandError {
                command: command@,
                exit_code,
                stderr: stderr@,
            },
        }
    }
}

/// How an exit code reads in a message.
pub open spec fn exit_code_text(exit_code: Option<i32>) -> Seq<char> {
    match exit_code {
        Some(code) => signed_text(code as int),
        None => "terminated by signal"@,
    }
}

/// The message of an executor failure.
pub open spec fn exec_message(e: ExecErrorView) -> Seq<char> {
    match e {
        ExecErrorView::SpawnError { command, cause } => "Failed to execute command "@ + command
            + ": "@ + cause,
        ExecErrorView::CommandError { command, exit_code, stderr } => "Command \""@ + command
            + "\" failed ("@ + exit_code_text(exit_code) + "): "@ + stderr,
    }
}

impl ExecError {
    /// The human-readable message of this failure.
    pub fn message(&self) -> (s: String)
        ensures
            s@ == exec_message(self@),
    {
        match self {
            ExecError::SpawnError { command, cause } => {
                let mut s = String::from_str("Failed to execute command ");
                s.append(command.as_str());
                s.append(": ");
                s.append(cause.as_str());
                s
            },
            ExecError::CommandError { command, exit_code, stderr } => {
                let mut s = String::from_str("Command \"");
                s.append(command.as_str());
                s.append("\" failed (");
                match exit_code {
                    Some(code) => {
                        let digits = signed_string(*code);
                        s.append(digits.as_str());
                    },
                    None => {
                        s.append("terminated by signal");
                    },
                }
                s.append("): ");
                s.append(stderr.as_str());
                s
            },
        }
    }
}

/// A failure to read what the service manager printed.
#[derive(Debug, Clone, PartialEq, Eq)]
pub enum ParseError {
    /// The status text holds no state marker of the branch that it selects.
    UnrecognizedState { raw_text: String },
    /// The text that should hold the main process id is no number.
    MalformedPid { raw_text: String },
}

/// The mathematical content of a [`ParseError`].
pub enum ParseErrorView {
    UnrecognizedState { raw_text: Seq<char> },
    MalformedPid { raw_text: Seq<char> },
}

impl View for ParseError {
    type V = ParseErrorView;

    open spec fn view(&self) -> ParseErrorView {
        match *self {
            ParseError::UnrecognizedState { raw_text } => ParseErrorView::UnrecognizedState {
                raw_text: raw_text@,
            },
            ParseError::MalformedPid { raw_text } => ParseErrorView::MalformedPid {
                raw_text: raw_text@,
            },
        }
    }
}

/// The message of a parse failure.
pub open spec fn parse_message(e: ParseErrorView) -> Seq<char> {
    match e {
        ParseErrorView::UnrecognizedState { raw_text } => "Invalid ActiveState : "@ + raw_text,
        ParseErrorView::MalformedPid { raw_text } => "Invalid MainPID : "@ + raw_text,
    }
}

impl ParseError {
    /// The human-readable message of this failure.
    pub fn message(&self) -> (s: String)
        ensures
            s@ == parse_message(self@),
    {
        match self {
            ParseError::UnrecognizedState { raw_text } => {
                let mut s = String::from_str("Invalid ActiveState : ");
                s.append(raw_text.as_str());
                s
            },
            ParseError::MalformedPid { raw_text } => {
                let mut s = String::from_str("Invalid MainPID : ");
                s.append(raw_text.as_str());
                s
            },
        }
    }
}

/// A failure of a controller operation.
#[derive(Debug, Clone, PartialEq, Eq)]
pub enum OpError {
    /// The service manager's command failed.
    Exec(ExecError),
    /// The service manager's output could not be read.
    Parse(ParseError),
    /// The process with this id was gone before its command line could be read.
    ProcessGone { pid: u32 },
    /// Writing or removing a service descriptor failed.
    IoError { message: String },
    /// The session-notification subsystem or the interrupt handler is not available.
    SubsystemError { message: String },
}

/// The mathematical content of an [`OpError`].
pub enum OpErrorView {
    Exec(ExecErrorView),
    Parse(ParseErrorView),
    ProcessGone { pid: u32 },
    IoError { message: Seq<char> },
    SubsystemError { message: Seq<char> },
}

impl View for OpError {
    type V = OpErrorView;

    open spec fn view(&self) -> OpErrorView {
        match *self {
            OpError::Exec(e) => OpErrorView::Exec(e@),
            OpError::Parse(e) => OpErrorView::Parse(e@),
            OpError::ProcessGone { pid } => OpErrorView::ProcessGone { pid },
            OpError::IoError { message } => OpErrorView::IoError { message: message@ },
            OpError::SubsystemError { message } => OpErrorView::SubsystemError {
                message: message@,
            },
        }
    }
}

/// The message of an operation failure.
pub open spec fn op_message(e: OpErrorView) -> Seq<char> {
    match e {
        OpErrorView::Exec(e) => exec_message(e),
        OpErrorView::Parse(e) => parse_message(e),
        OpErrorView::ProcessGone { pid } => "Process "@ + decimal_text(pid as nat) + " is gone"@,
        OpErrorView::IoError { message } => message,
        OpErrorView::SubsystemError { message } => message,
    }
}

impl OpError {
    /// The human-readable message of this failure.
    pub fn message(&self) -> (s: String)
        ensures
            s@ == op_message(self@),
    {
        match self {
            OpError::Exec(e) => e.message(),
            OpError::Parse(e) => e.message(),
            OpError::ProcessGone { pid } => {
                let mut s = String::from_str("Process ");
                let digits = decimal_string(*pid as u64);
                s.append(digits.as_str());
                s.append(" is gone");
                s
            },
            OpError::IoError { message } => message.clone(),
            OpError::SubsystemError { message } => message.clone(),
        }
    }

    /// This failure reduced to its message.
    pub fn to_error(&self) -> (e: Error)
        ensures
            e@ == op_message(self@),
    {
        Error { message: self.message() }
    }
}

} // verus!
