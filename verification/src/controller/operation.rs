//! Operations on the system as plans: the steps that the caller carries out one by
//! one, and the rule that turns what happened into the operation's result.

use crate::controller::executor::{
    execute_result, execute_verdict, CommandOutcome, CommandOutcomeView,
};
use crate::error::{ExecError, ExecErrorView, OpError, OpErrorView};
use vstd::prelude::*;
use vstd::string::*;

verus! {

/// One thing to do on the system.
#[derive(Debug, Clone, PartialEq, Eq)]
pub enum Action {
    /// Run the service manager's control command with these arguments.
    Systemctl { args: Vec<String> },
    /// Create or replace the file at `path` with `content`.
    WriteFile { path: String, content: String },
    /// Create the directory `path`. `target` is the file that will be written into it,
    /// by which a failure is reported.
    CreateDir { path: String, target: String },
    /// Remove the file at `path`.
    RemoveFile { path: String },
    /// Remove the directory `path` and all that it holds.
    RemoveDirAll { path: String },
}

/// The mathematical content of an [`Action`].
pub enum ActionView {
    Systemctl { args: Seq<Seq<char>> },
    WriteFile { path: Seq<char>, content: Seq<char> },
    CreateDir { path: Seq<char>, target: Seq<char> },
    RemoveFile { path: Seq<char> },
    RemoveDirAll { path: Seq<char> },
}

/// The mathematical content of a list of strings.
pub open spec fn texts_view(texts: Seq<String>) -> Seq<Seq<char>> {
    texts.map_values(|t: String| t@)
}

impl View for Action {
    type V = ActionView;

    open spec fn view(&self) -> ActionView {
        match *self {
            Action::Systemctl { args } => ActionView::Systemctl { args: texts_view(args@) },
            Action::WriteFile { path, content } => ActionView::WriteFile {
                path: path@,
                content: content@,
            },
            Action::CreateDir { path, target } => ActionView::CreateDir {
                path: path@,
                target: target@,
            },
            Action::RemoveFile { path } => ActionView::RemoveFile { path: path@ },
            Action::RemoveDirAll { path } => ActionView::RemoveDirAll { path: path@ },
        }
    }
}

/// One step of an operation. The failure of a required step ends the operation and is
/// its result; the failure of any other step is passed over.
#[derive(Debug, Clone, PartialEq, Eq)]
pub struct Step {
    pub action: Action,
    pub required: bool,
}

/// The mathematical content of a [`Step`].
pub struct StepView {
    pub action: ActionView,
    pub required: bool,
}

impl View for Step {
    type V = StepView;

    open spec fn view(&self) -> StepView {
        StepView { action: self.action@, required: self.required }
    }
}

/// The mathematical content of a list of steps.
pub open spec fn steps_view(steps: Seq<Step>) -> Seq<StepView> {
    steps.map_values(|s: Step| s@)
}

/// The name by which messages call a run of the control command: its first argument.
pub open spec fn command_name(args: Seq<Seq<char>>) -> Seq<char> {
    if args.len() > 0 {
        args[0]
    } else {
        Seq::<char>::empty()
    }
}

/// What the outcome of a command step amounts to.
pub open spec fn command_verdict(args: Seq<Seq<char>>, outcome: CommandOutcomeView) -> Result<
    (),
    OpErrorView,
> {
    match execute_verdict(command_name(args), outcome) {
        Ok(_) => Ok(()),
        Err(e) => Err(OpErrorView::Exec(e)),
    }
}

/// The failure of an action that the operating system did not carry out, for the
/// reason `cause`: a spawn error for a command, an I/O error with its message for a
/// file action.
pub open spec fn action_failure(action: ActionView, cause: Seq<char>) -> OpErrorView {
    match action {
        ActionView::Systemctl { args } => OpErrorView::Exec(
            ExecErrorView::SpawnError { command: command_name(args), cause },
        ),
        ActionView::WriteFile { path, content } => OpErrorView::IoError {
            message: "Failed to write "@ + path + ": "@ + cause,
        },
        ActionView::CreateDir { path, target } => OpErrorView::IoError {
            message: "Failed to create "@ + target + ": "@ + cause,
        },
        ActionView::RemoveFile { path } => OpErrorView::IoError {
            message: "Failed to delete "@ + path + ": "@ + cause,
        },
        ActionView::RemoveDirAll { path } => OpErrorView::IoError {
            message: "Failed to delete "@ + path + ": "@ + cause,
        },
    }
}

/// What the outcome of a file step amounts to.
pub open spec fn io_verdict(action: ActionView, outcome: Result<(), Seq<char>>) -> Result<
    (),
    OpErrorView,
> {
    match outcome {
        Ok(_) => Ok(()),
        Err(cause) => Err(action_failure(action, cause)),
    }
}

/// An operation under way, as mathematics: its steps, how many of them are done with,
/// and the failure that ended it, if one did.
pub struct OperationView {
    pub steps: Seq<StepView>,
    pub next: nat,
    pub failure: Option<OpErrorView>,
}

impl OperationView {
    /// An operation of which nothing was done yet.
    pub open spec fn start(steps: Seq<StepView>) -> OperationView {
        OperationView { steps, next: 0, failure: None }
    }

    /// The step to carry out now; `None` once the operation is over.
    pub open spec fn pending(self) -> Option<StepView> {
        if self.failure is None && self.next < self.steps.len() {
            Some(self.steps[self.next as int])
        } else {
            None
        }
    }

    /// The result of the operation; `None` while a step is pending.
    pub open spec fn result(self) -> Option<Result<(), OpErrorView>> {
        match self.failure {
            Some(e) => Some(Err(e)),
            None => if self.next >= self.steps.len() {
                Some(Ok(()))
            } else {
                None
            },
        }
    }

    /// The operation after the pending step ended with `verdict`. The failure of a
    /// required step ends the operation; anything else leads on to the next step.
    /// An operation that is over stays as it is.
    pub open spec fn settle(self, verdict: Result<(), OpErrorView>) -> OperationView {
        match self.pending() {
            None => self,
            Some(step) => match verdict {
                Err(e) if step.required => OperationView { failure: Some(e), ..self },
                _ => OperationView { next: self.next + 1, ..self },
            },
        }
    }

    /// The operation after a run of the control command was reported. The report counts
    /// only where a command step is pending.
    pub open spec fn command_finished(self, outcome: CommandOutcomeView) -> OperationView {
        match self.pending() {
            Some(StepView { action: ActionView::Systemctl { args }, .. }) => self.settle(
                command_verdict(args, outcome),
            ),
            _ => self,
        }
    }

    /// The operation after a file action was reported. The report counts only where
    /// a file step is pending.
    pub open spec fn io_finished(self, outcome: Result<(), Seq<char>>) -> OperationView {
        match self.pending() {
            None => self,
            Some(StepView { action: ActionView::Systemctl { .. }, .. }) => self,
            Some(step) => self.settle(io_verdict(step.action, outcome)),
        }
    }

    /// The operation after its steps, from the pending one on, ended with `verdicts`.
    pub open spec fn run(self, verdicts: Seq<Result<(), OpErrorView>>) -> OperationView
        decreases verdicts.len(),
    {
        if verdicts.len() == 0 {
            self
        } else {
            self.settle(verdicts[0]).run(verdicts.skip(1))
        }
    }
}

/// The first failure of a required step, where `verdicts[i]` is how `steps[i]` ended;
/// `Ok` where no required step failed.
pub open spec fn first_required_failure(
    steps: Seq<StepView>,
    verdicts: Seq<Result<(), OpErrorView>>,
) -> Result<(), OpErrorView>
    decreases steps.len(),
{
    if steps.len() == 0 || verdicts.len() == 0 {
        Ok(())
    } else if steps[0].required && verdicts[0] is Err {
        verdicts[0]
    } else {
        first_required_failure(steps.skip(1), verdicts.skip(1))
    }
}

/// Steps of which none is required never make an operation fail.
pub proof fn lemma_optional_steps_never_fail(
    steps: Seq<StepView>,
    verdicts: Seq<Result<(), OpErrorView>>,
)
    requires
        forall|i: int| 0 <= i < steps.len() ==> !(#[trigger] steps[i]).required,
    ensures
        first_required_failure(steps, verdicts) == Ok::<(), OpErrorView>(()),
    decreases steps.len(),
{
    if steps.len() > 0 && verdicts.len() > 0 {
        assert(!steps[0].required);
        assert forall|i: int| 0 <= i < steps.skip(1).len() implies !(#[trigger] steps.skip(
            1,
        )[i]).required by {
            assert(steps.skip(1)[i] == steps[i + 1]);
        }
        lemma_optional_steps_never_fail(steps.skip(1), verdicts.skip(1));
    }
}

/// An operation that is over is not changed by further verdicts.
pub proof fn lemma_run_when_over(op: OperationView, verdicts: Seq<Result<(), OpErrorView>>)
    requires
        op.pending() is None,
    ensures
        op.run(verdicts) == op,
    decreases verdicts.len(),
{
    if verdicts.len() > 0 {
        lemma_run_when_over(op, verdicts.skip(1));
    }
}

/// From any point of an operation that has not failed, one verdict for each remaining
/// step ends it with the first failure of a required step among them.
pub proof fn lemma_run_from(op: OperationView, verdicts: Seq<Result<(), OpErrorView>>)
    requires
        op.failure is None,
        op.next <= op.steps.len(),
        verdicts.len() == op.steps.len() - op.next,
    ensures
        op.run(verdicts).result() == Some(
            first_required_failure(op.steps.skip(op.next as int), verdicts),
        ),
    decreases verdicts.len(),
{
    let rest = op.steps.skip(op.next as int);
    if verdicts.len() == 0 {
        assert(rest.len() == 0);
    } else {
        let step = op.steps[op.next as int];
        assert(rest[0] == step);
        let after = op.settle(verdicts[0]);
        if step.required && verdicts[0] is Err {
            lemma_run_when_over(after, verdicts.skip(1));
        } else {
            assert(rest.skip(1) =~= op.steps.skip(after.next as int));
            lemma_run_from(after, verdicts.skip(1));
        }
    }
}

/// An operation that is given one verdict for each of its steps ends with the first
/// failure of a required step, and with success where no required step failed: what
/// happens to the other steps is never the result.
pub proof fn lemma_run_reports_first_required_failure(
    steps: Seq<StepView>,
    verdicts: Seq<Result<(), OpErrorView>>,
)
    requires
        verdicts.len() == steps.len(),
    ensures
        OperationView::start(steps).run(verdicts).result() == Some(
            first_required_failure(steps, verdicts),
        ),
{
    assert(steps.skip(0) =~= steps);
    lemma_run_from(OperationView::start(steps), verdicts);
}

/// An operation under way. The caller carries out the pending step, reports how it
/// went, and goes on until there is a result.
#[derive(Debug)]
pub struct Operation {
    steps: Vec<Step>,
    next: usize,
    failure: Option<OpError>,
}

impl View for Operation {
    type V = OperationView;

    closed spec fn view(&self) -> OperationView {
        OperationView {
            steps: steps_view(self.steps@),
            next: self.next as nat,
            failure: match self.failure {
                Some(e) => Some(e@),
                None => None,
            },
        }
    }
}

/// The mathematical content of a step that may be absent.
pub open spec fn step_view(step: Option<&Step>) -> Option<StepView> {
    match step {
        Some(s) => Some(s@),
        None => None,
    }
}

/// The mathematical content of an operation's result.
pub open spec fn op_result_view(r: Option<Result<(), &OpError>>) -> Option<
    Result<(), OpErrorView>,
> {
    match r {
        Some(Ok(_)) => Some(Ok(())),
        Some(Err(e)) => Some(Err(e@)),
        None => None,
    }
}

/// The first argument of a command, or the empty text.
fn first_arg(args: &Vec<String>) -> (name: &str)
    ensures
        name@ == command_name(texts_view(args@)),
{
    if args.len() > 0 {
        args[0].as_str()
    } else {
        proof {
            reveal_strlit("");
        }
        assert(""@ =~= Seq::<char>::empty());
        ""
    }
}

/// `prefix`, then `subject`, then `: ` and `cause`.
fn failure_message(prefix: &str, subject: &str, cause: &str) -> (message: String)
    ensures
        message@ == prefix@ + subject@ + ": "@ + cause@,
{
    let mut message = String::from_str(prefix);
    message.append(subject);
    message.append(": ");
    message.append(cause);
    message
}

/// The failure of `action` where the operating system did not carry it out, for the
/// reason `cause`.
pub fn failure_of(action: &Action, cause: &str) -> (e: OpError)
    ensures
        e@ == action_failure(action@, cause@),
{
    match action {
        Action::Systemctl { args } => OpError::Exec(
            ExecError::SpawnError {
                command: String::from_str(first_arg(args)),
                cause: String::from_str(cause),
            },
        ),
        Action::WriteFile { path, .. } => OpError::IoError {
            message: failure_message("Failed to write ", path.as_str(), cause),
        },
        Action::CreateDir { target, .. } => OpError::IoError {
            message: failure_message("Failed to create ", target.as_str(), cause),
        },
        Action::RemoveFile { path } => OpError::IoError {
            message: failure_message("Failed to delete ", path.as_str(), cause),
        },
        Action::RemoveDirAll { path } => OpError::IoError {
            message: failure_message("Failed to delete ", path.as_str(), cause),
        },
    }
}

impl Operation {
    /// The operation that consists of `steps`, with nothing done yet.
    pub fn new(steps: Vec<Step>) -> (op: Operation)
        ensures
            op@ == OperationView::start(steps_view(steps@)),
    {
        Operation { steps, next: 0, failure: None }
    }

    /// The step to carry out now; `None` once the operation is over.
    pub fn pending(&self) -> (step: Option<&Step>)
        ensures
            step_view(step) == self@.pending(),
    {
        if self.failure.is_none() && self.next < self.steps.len() {
            Some(&self.steps[self.next])
        } else {
            None
        }
    }

    /// The result of the operation; `None` while a step is pending.
    pub fn result(&self) -> (r: Option<Result<(), &OpError>>)
        ensures
            op_result_view(r) == self@.result(),
    {
        match &self.failure {
            Some(e) => Some(Err(e)),
            None => if self.next >= self.steps.len() {
                Some(Ok(()))
            } else {
                None
            },
        }
    }

    /// Takes in how the pending step ended.
    fn settle(&mut self, verdict: Result<(), OpError>)
        ensures
            final(self)@ == old(self)@.settle(
                match verdict {
                    Ok(_) => Ok(()),
                    Err(e) => Err(e@),
                },
            ),
    {
        if self.failure.is_none() && self.next < self.steps.len() {
            let required = self.steps[self.next].required;
            match verdict {
                Err(e) => {
                    if required {
                        self.failure = Some(e);
                    } else {
                        self.next = self.next + 1;
                    }
                },
                Ok(_) => {
                    self.next = self.next + 1;
                },
            }
        }
    }

    /// Reports how the run of the control command went that the pending step asked
    /// for. Nothing changes unless a command step is pending.
    pub fn command_finished(&mut self, outcome: CommandOutcome)
        ensures
            final(self)@ == old(self)@.command_finished(outcome@),
    {
        if self.failure.is_none() && self.next < self.steps.len() {
            let verdict = match &self.steps[self.next].action {
                Action::Systemctl { args } => {
                    match execute_result(first_arg(args), outcome) {
                        Ok(_) => Some(Ok(())),
                        Err(e) => Some(Err(OpError::Exec(e))),
                    }
                },
                _ => None,
            };
            match verdict {
                Some(v) => {
                    self.settle(v);
                },
                None => {},
            }
        }
    }

    /// Reports how the file action went that the pending step asked for: `Ok`, or the
    /// operating system's reason for the failure. Nothing changes unless a file step
    /// is pending.
    pub fn io_finished(&mut self, outcome: Result<(), String>)
        ensures
            final(self)@ == old(self)@.io_finished(
                match outcome {
                    Ok(_) => Ok(()),
                    Err(cause) => Err(cause@),
                },
            ),
    {
        if self.failure.is_none() && self.next < self.steps.len() {
            let verdict = match &self.steps[self.next].action {
                Action::Systemctl { .. } => None,
                action => match &outcome {
                    Ok(_) => Some(Ok(())),
                    Err(cause) => Some(Err(failure_of(action, cause.as_str()))),
                },
            };
            match verdict {
                Some(v) => {
                    self.settle(v);
                },
                None => {},
            }
        }
    }
}

} // verus!
