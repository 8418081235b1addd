//! The status query as a sequence of questions to the system: the caller answers one
//! after the other, and the answers add up to the status of the service.

use crate::controller::executor::{
    execute_result, execute_verdict, CommandOutcome, CommandOutcomeView,
};
use crate::controller::operation::texts_view;
use crate::controller::status::{
    failed_flag, main_pid, parse_pid, parse_status, status_of, ServiceStatus, ServiceStatusView,
};
use crate::error::{OpError, OpErrorView, ParseErrorView};
use crate::text::{decimal_string, decimal_text, occurs_in};
use vstd::prelude::*;
use vstd::string::*;

verus! {

/// A question to the system.
#[derive(Debug, Clone, PartialEq, Eq)]
pub enum Query {
    /// Run the service manager's control command with these arguments.
    Systemctl { args: Vec<String> },
    /// Read the command line of a process from the file at `path`.
    ReadCmdline { path: String },
}

/// The mathematical content of a [`Query`].
pub enum QueryView {
    Systemctl { args: Seq<Seq<char>> },
    ReadCmdline { path: Seq<char> },
}

impl View for Query {
    type V = QueryView;

    open spec fn view(&self) -> QueryView {
        match *self {
            Query::Systemctl { args } => QueryView::Systemctl { args: texts_view(args@) },
            Query::ReadCmdline { path } => QueryView::ReadCmdline { path: path@ },
        }
    }
}

/// How far a status query has come, with what it has found so far.
#[derive(Debug)]
enum Stage {
    MainPid,
    FailedFlag { pid: u32 },
    Cmdline { pid: u32, is_failed: bool },
    Status { pid: u32, is_failed: bool, cmdline: String },
    Finished(Result<ServiceStatus, OpError>),
}

/// How far a status query has come, as mathematics.
pub enum StageView {
    /// The main process id is asked for.
    MainPid,
    /// The failed flag is asked for.
    FailedFlag { pid: u32 },
    /// The command line of the main process is asked for.
    Cmdline { pid: u32, is_failed: bool },
    /// The status text is asked for.
    Status { pid: u32, is_failed: bool, cmdline: Seq<char> },
    /// The query is over.
    Finished(Result<ServiceStatusView, OpErrorView>),
}

/// A status query under way, as mathematics.
pub struct StatusProbeView {
    pub service_name: Seq<char>,
    pub stage: StageView,
}

/// The file that holds the command line of the process `pid`.
pub open spec fn cmdline_path(pid: u32) -> Seq<char> {
    "/proc/"@ + decimal_text(pid as nat) + "/cmdline"@
}

/// Whether the answer to the failed-flag question reports a failure: the command
/// succeeded and printed `failed`.
pub open spec fn failure_reported(answer: CommandOutcomeView) -> bool {
    execute_verdict("is-failed"@, answer) matches Ok(text) && occurs_in(text, "failed"@)
}

/// A parse result as the result of an operation.
pub open spec fn lift_status(r: Result<ServiceStatusView, ParseErrorView>) -> Result<
    ServiceStatusView,
    OpErrorView,
> {
    match r {
        Ok(status) => Ok(status),
        Err(e) => Err(OpErrorView::Parse(e)),
    }
}

impl StatusProbeView {
    /// The status query for the service `service_name`, before its first question.
    pub open spec fn start(service_name: Seq<char>) -> StatusProbeView {
        StatusProbeView { service_name, stage: StageView::MainPid }
    }

    /// The question to answer now; `None` once the query is over.
    pub open spec fn query(self) -> Option<QueryView> {
        match self.stage {
            StageView::MainPid => Some(
                QueryView::Systemctl {
                    args: seq!["show"@, "-p"@, "MainPID"@, self.service_name],
                },
            ),
            StageView::FailedFlag { .. } => Some(
                QueryView::Systemctl { args: seq!["is-failed"@, self.service_name] },
            ),
            StageView::Cmdline { pid, .. } => Some(
                QueryView::ReadCmdline { path: cmdline_path(pid) },
            ),
            StageView::Status { .. } => Some(
                QueryView::Systemctl { args: seq!["status"@, self.service_name] },
            ),
            StageView::Finished(_) => None,
        }
    }

    /// The result of the query; `None` while a question is open.
    pub open spec fn result(self) -> Option<Result<ServiceStatusView, OpErrorView>> {
        match self.stage {
            StageView::Finished(r) => Some(r),
            _ => None,
        }
    }

    /// The query after a run of the control command was reported. The question for the
    /// process id ends the query where the command fails or prints no number; the one
    /// for the failed flag never ends it; the one for the status text ends it either
    /// way. The report counts only where a command is asked for.
    pub open spec fn command_finished(self, outcome: CommandOutcomeView) -> StatusProbeView {
        let stage = match self.stage {
            StageView::MainPid => match execute_verdict("show"@, outcome) {
                Err(e) => StageView::Finished(Err(OpErrorView::Exec(e))),
                Ok(text) => match main_pid(text) {
                    Some(pid) => StageView::FailedFlag { pid },
                    None => StageView::Finished(
                        Err(OpErrorView::Parse(ParseErrorView::MalformedPid { raw_text: text })),
                    ),
                },
            },
            StageView::FailedFlag { pid } => StageView::Cmdline {
                pid,
                is_failed: failure_reported(outcome),
            },
            StageView::Status { pid, is_failed, cmdline } => match execute_verdict(
                "status"@,
                outcome,
            ) {
                Err(e) => StageView::Finished(Err(OpErrorView::Exec(e))),
                Ok(raw) => StageView::Finished(
                    lift_status(status_of(raw, is_failed, pid, cmdline)),
                ),
            },
            other => other,
        };
        StatusProbeView { stage, ..self }
    }

    /// The query after the command line was read, or found to be gone with its
    /// process. The report counts only where the command line is asked for.
    pub open spec fn cmdline_read(self, content: Option<Seq<char>>) -> StatusProbeView {
        let stage = match self.stage {
            StageView::Cmdline { pid, is_failed } => match content {
                Some(cmdline) => StageView::Status { pid, is_failed, cmdline },
                None => StageView::Finished(Err(OpErrorView::ProcessGone { pid })),
            },
            other => other,
        };
        StatusProbeView { stage, ..self }
    }
}

/// What a status query comes to, given the answers to its four questions: the first
/// failure in the order of the questions, where a failed flag that cannot be had is
/// no failure but a flag that is not set; else the status.
pub open spec fn query_verdict(
    pid_answer: CommandOutcomeView,
    failed_answer: CommandOutcomeView,
    cmdline: Option<Seq<char>>,
    status_answer: CommandOutcomeView,
) -> Result<ServiceStatusView, OpErrorView> {
    match execute_verdict("show"@, pid_answer) {
        Err(e) => Err(OpErrorView::Exec(e)),
        Ok(text) => match main_pid(text) {
            None => Err(OpErrorView::Parse(ParseErrorView::MalformedPid { raw_text: text })),
            Some(pid) => match cmdline {
                None => Err(OpErrorView::ProcessGone { pid }),
                Some(line) => match execute_verdict("status"@, status_answer) {
                    Err(e) => Err(OpErrorView::Exec(e)),
                    Ok(raw) => lift_status(
                        status_of(raw, failure_reported(failed_answer), pid, line),
                    ),
                },
            },
        },
    }
}

/// A status query that gets its four answers in turn is over, with the result that the
/// answers come to.
pub proof fn lemma_query_run(
    service_name: Seq<char>,
    pid_answer: CommandOutcomeView,
    failed_answer: CommandOutcomeView,
    cmdline: Option<Seq<char>>,
    status_answer: CommandOutcomeView,
)
    ensures
        StatusProbeView::start(service_name).command_finished(pid_answer).command_finished(
            failed_answer,
        ).cmdline_read(cmdline).command_finished(status_answer).result() == Some(
            query_verdict(pid_answer, failed_answer, cmdline, status_answer),
        ),
{
}

/// Two status queries that see the same failed flag and the same status text, and that
/// both succeed, agree on the state, on the failed flag and on the raw details, whatever
/// process id and command line each of them finds.
pub proof fn lemma_get_status_idempotent(
    pid_answer1: CommandOutcomeView,
    cmdline1: Option<Seq<char>>,
    pid_answer2: CommandOutcomeView,
    cmdline2: Option<Seq<char>>,
    failed_answer: CommandOutcomeView,
    status_answer: CommandOutcomeView,
)
    ensures
        match (
            query_verdict(pid_answer1, failed_answer, cmdline1, status_answer),
            query_verdict(pid_answer2, failed_answer, cmdline2, status_answer),
        ) {
            (Ok(first), Ok(second)) => {
                &&& first.state == second.state
                &&& first.is_failed == second.is_failed
                &&& first.raw_details == second.raw_details
            },
            _ => true,
        },
{
}

/// A status query under way. The caller answers the open question and goes on until
/// there is a result.
#[derive(Debug)]
pub struct StatusProbe {
    service_name: String,
    stage: Stage,
}

impl View for StatusProbe {
    type V = StatusProbeView;

    closed spec fn view(&self) -> StatusProbeView {
        StatusProbeView {
            service_name: self.service_name@,
            stage: match self.stage {
                Stage::MainPid => StageView::MainPid,
                Stage::FailedFlag { pid } => StageView::FailedFlag { pid },
                Stage::Cmdline { pid, is_failed } => StageView::Cmdline { pid, is_failed },
                Stage::Status { pid, is_failed, cmdline } => StageView::Status {
                    pid,
                    is_failed,
                    cmdline: cmdline@,
                },
                Stage::Finished(Ok(status)) => StageView::Finished(Ok(status@)),
                Stage::Finished(Err(e)) => StageView::Finished(Err(e@)),
            },
        }
    }
}

/// The mathematical content of a question that may be absent.
pub open spec fn query_view(query: Option<Query>) -> Option<QueryView> {
    match query {
        Some(q) => Some(q@),
        None => None,
    }
}

/// The mathematical content of the result of a status query.
pub open spec fn probe_result_view(r: Option<Result<ServiceStatus, OpError>>) -> Option<
    Result<ServiceStatusView, OpErrorView>,
> {
    match r {
        Some(Ok(status)) => Some(Ok(status@)),
        Some(Err(e)) => Some(Err(e@)),
        None => None,
    }
}

/// The question that runs the control command with the arguments `head` and then, last,
/// `service_name`.
fn systemctl_query(head: Vec<&'static str>, service_name: &str) -> (q: Query)
    ensures
        q@ == (QueryView::Systemctl {
            args: head@.map_values(|s: &'static str| s@).push(service_name@),
        }),
{
    let mut args: Vec<String> = Vec::new();
    let mut i: usize = 0;
    while i < head.len()
        invariant
            i <= head.len(),
            args.len() == i,
            forall|k: int| 0 <= k < i ==> (#[trigger] args@[k])@ == head@[k]@,
        decreases head.len() - i,
    {
        args.push(String::from_str(head[i]));
        i += 1;
    }
    args.push(String::from_str(service_name));
    assert(texts_view(args@) =~= head@.map_values(|s: &'static str| s@).push(service_name@));
    Query::Systemctl { args }
}

impl StatusProbe {
    /// The status query for the service `service_name`, before its first question.
    pub fn new(service_name: &str) -> (probe: StatusProbe)
        ensures
            probe@ == StatusProbeView::start(service_name@),
    {
        StatusProbe { service_name: String::from_str(service_name), stage: Stage::MainPid }
    }

    /// The question to answer now; `None` once the query is over.
    pub fn query(&self) -> (q: Option<Query>)
        ensures
            query_view(q) == self@.query(),
    {
        let name = self.service_name.as_str();
        match &self.stage {
            Stage::MainPid => {
                let q = systemctl_query(vec!["show", "-p", "MainPID"], name);
                assert(q@->Systemctl_args =~= seq!["show"@, "-p"@, "MainPID"@, name@]);
                Some(q)
            },
            Stage::FailedFlag { .. } => {
                let q = systemctl_query(vec!["is-failed"], name);
                assert(q@->Systemctl_args =~= seq!["is-failed"@, name@]);
                Some(q)
            },
            Stage::Cmdline { pid, .. } => {
                let mut path = String::from_str("/proc/");
                let digits = decimal_string(*pid as u64);
                path.append(digits.as_str());
                path.append("/cmdline");
                Some(Query::ReadCmdline { path })
            },
            Stage::Status { .. } => {
                let q = systemctl_query(vec!["status"], name);
                assert(q@->Systemctl_args =~= seq!["status"@, name@]);
                Some(q)
            },
            Stage::Finished(_) => None,
        }
    }

    /// Whether the query is over.
    pub fn is_finished(&self) -> (r: bool)
        ensures
            r == self@.result() is Some,
    {
        match &self.stage {
            Stage::Finished(_) => true,
            _ => false,
        }
    }

    /// The result of the query; `None` while a question is open.
    pub fn finish(self) -> (r: Option<Result<ServiceStatus, OpError>>)
        ensures
            probe_result_view(r) == self@.result(),
    {
        match self.stage {
            Stage::Finished(r) => Some(r),
            _ => None,
        }
    }

    /// The query after the run of the control command that the open question asked
    /// for. Nothing changes unless a command is asked for.
    pub fn command_finished(self, outcome: CommandOutcome) -> (next: StatusProbe)
        ensures
            next@ == self@.command_finished(outcome@),
    {
        let StatusProbe { service_name, stage } = self;
        let stage = match stage {
            Stage::MainPid => match execute_result("show", outcome) {
                Err(e) => Stage::Finished(Err(OpError::Exec(e))),
                Ok(text) => match parse_pid(text.as_str()) {
                    Ok(pid) => Stage::FailedFlag { pid },
                    Err(e) => Stage::Finished(Err(OpError::Parse(e))),
                },
            },
            Stage::FailedFlag { pid } => {
                let answer = execute_result("is-failed", outcome);
                Stage::Cmdline { pid, is_failed: failed_flag(&answer) }
            },
            Stage::Status { pid, is_failed, cmdline } => match execute_result("status", outcome) {
                Err(e) => Stage::Finished(Err(OpError::Exec(e))),
                Ok(raw) => match parse_status(raw, is_failed, pid, cmdline) {
                    Ok(status) => Stage::Finished(Ok(status)),
                    Err(e) => Stage::Finished(Err(OpError::Parse(e))),
                },
            },
            other => other,
        };
        StatusProbe { service_name, stage }
    }

    /// The query after the command line was read: `Some` with what the file holds, or
    /// `None` where the file cannot be read because the process is gone. Nothing
    /// changes unless the command line is asked for.
    pub fn cmdline_read(self, content: Option<String>) -> (next: StatusProbe)
        ensures
            next@ == self@.cmdline_read(
                match content {
                    Some(text) => Some(text@),
                    None => None,
                },
            ),
    {
        let StatusProbe { service_name, stage } = self;
        let stage = match stage {
            Stage::Cmdline { pid, is_failed } => match content {
                Some(cmdline) => Stage::Status { pid, is_failed, cmdline },
                None => Stage::Finished(Err(OpError::ProcessGone { pid })),
            },
            other => other,
        };
        StatusProbe { service_name, stage }
    }
}

} // verus!
