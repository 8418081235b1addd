//! The controller for services under systemd.

use crate::controller::operation::{
    lemma_optional_steps_never_fail, lemma_run_reports_first_required_failure, steps_view,
    texts_view, Action, ActionView, Operation, OperationView, Step, StepView,
};
use crate::controller::probe::{StatusProbe, StatusProbeView};
use crate::error::{OpError, OpErrorView};
use vstd::prelude::*;
use vstd::string::*;

verus! {

/// The directory that holds the unit files.
pub open spec fn unit_dir() -> Seq<char> {
    "/lib/systemd/system/"@
}

/// `file` seen from the directory `dir`: a `file` that starts with `/` is a path of
/// its own; else it follows `dir`, after a `/` where `dir` does not end with one.
pub open spec fn join_path(dir: Seq<char>, file: Seq<char>) -> Seq<char> {
    if file.len() > 0 && file[0] == '/' {
        file
    } else if dir.len() > 0 && dir.last() != '/' {
        dir + "/"@ + file
    } else {
        dir + file
    }
}

/// The name of the unit file of the service `name`.
pub open spec fn service_file_name(name: Seq<char>) -> Seq<char> {
    name + ".service"@
}

/// The path of the unit file of the service `name`.
pub open spec fn service_unit_path(name: Seq<char>) -> Seq<char> {
    join_path(unit_dir(), service_file_name(name))
}

/// The path of the drop-in directory of the service `name`.
pub open spec fn service_dropin_dir(name: Seq<char>) -> Seq<char> {
    join_path(unit_dir(), service_file_name(name) + ".d"@)
}

/// The path of the configuration file in the drop-in directory of the service `name`.
pub open spec fn service_config_path(name: Seq<char>) -> Seq<char> {
    join_path(service_dropin_dir(name), name + ".conf"@)
}

/// The unit file of the service `name`, which starts the program at `executable`.
pub open spec fn service_unit_content(name: Seq<char>, executable: Seq<char>) -> Seq<char> {
    "\n[Unit]\nDescription="@ + name + "\n\n[Service]\nExecStart="@ + executable
        + "\n\n[Install]\nWantedBy=multi-user.target"@
}

/// The step that runs the control command with `args`.
pub open spec fn command_step(args: Seq<Seq<char>>, required: bool) -> StepView {
    StepView { action: ActionView::Systemctl { args }, required }
}

/// The steps that register the service `name` with the service manager.
pub open spec fn install_plan(name: Seq<char>) -> Seq<StepView> {
    seq![command_step(seq!["daemon-reload"@], true), command_step(seq!["enable"@, name], true)]
}

/// The steps that take the service `name` off the service manager's books. Only the
/// first one has to succeed.
pub open spec fn uninstall_plan(name: Seq<char>) -> Seq<StepView> {
    seq![
        command_step(seq!["disable"@, name], true),
        command_step(seq!["daemon-reload"@], false),
        command_step(seq!["reset-failed"@], false),
    ]
}

/// The step that starts the service `name`.
pub open spec fn start_plan(name: Seq<char>) -> Seq<StepView> {
    seq![command_step(seq!["start"@, name], true)]
}

/// The step that stops the service `name`.
pub open spec fn stop_plan(name: Seq<char>) -> Seq<StepView> {
    seq![command_step(seq!["stop"@, name], true)]
}

/// The steps that write the descriptor of the service `name`: the unit file, and,
/// where there is a configuration, the drop-in directory and the configuration in it.
pub open spec fn write_config_plan(
    name: Seq<char>,
    config: Option<Seq<char>>,
    executable: Seq<char>,
) -> Seq<StepView> {
    let unit = seq![
        StepView {
            action: ActionView::WriteFile {
                path: service_unit_path(name),
                content: service_unit_content(name, executable),
            },
            required: true,
        },
    ];
    match config {
        None => unit,
        Some(text) => unit + seq![
            StepView {
                action: ActionView::CreateDir {
                    path: service_dropin_dir(name),
                    target: service_config_path(name),
                },
                required: true,
            },
            StepView {
                action: ActionView::WriteFile { path: service_config_path(name), content: text },
                required: true,
            },
        ],
    }
}

/// The steps that remove the descriptor of the service `name`. None has to succeed.
pub open spec fn remove_config_plan(name: Seq<char>) -> Seq<StepView> {
    seq![
        StepView {
            action: ActionView::RemoveFile { path: service_unit_path(name) },
            required: false,
        },
        StepView {
            action: ActionView::RemoveDirAll { path: service_dropin_dir(name) },
            required: false,
        },
    ]
}

/// The result of the operation that deletes a service is what its first step, the one
/// that unregisters the service, came to: no failure to tidy up afterwards changes it.
pub proof fn lemma_delete_reports_unregister_step(
    name: Seq<char>,
    verdicts: Seq<Result<(), OpErrorView>>,
)
    requires
        verdicts.len() == 5,
    ensures
        OperationView::start(uninstall_plan(name) + remove_config_plan(name)).run(
            verdicts,
        ).result() == Some(verdicts[0]),
{
    let steps = uninstall_plan(name) + remove_config_plan(name);
    lemma_run_reports_first_required_failure(steps, verdicts);
    lemma_optional_steps_never_fail(steps.skip(1), verdicts.skip(1));
    match verdicts[0] {
        Ok(unit) => {
            assert(unit == ());
        },
        Err(_) => {},
    }
}

/// Every step of the operation that creates a service is a required one.
pub proof fn lemma_create_requires_every_step(
    name: Seq<char>,
    config: Option<Seq<char>>,
    executable: Seq<char>,
)
    ensures
        forall|i: int|
            0 <= i < (write_config_plan(name, config, executable) + install_plan(name)).len()
                ==> (#[trigger] (write_config_plan(name, config, executable) + install_plan(
                name,
            ))[i]).required,
{
}

/// `file` seen from the directory `dir`.
pub fn join(dir: &str, file: &str) -> (path: String)
    ensures
        path@ == join_path(dir@, file@),
{
    if file.unicode_len() > 0 && file.get_char(0) == '/' {
        return String::from_str(file);
    }
    let mut path = String::from_str(dir);
    let n: usize = dir.unicode_len();
    if n > 0 && dir.get_char(n - 1) != '/' {
        path.append("/");
    }
    path.append(file);
    path
}

/// The step that runs the control command with the one argument `a`.
fn command_step_1(a: &str, required: bool) -> (step: Step)
    ensures
        step@ == command_step(seq![a@], required),
{
    let mut args: Vec<String> = Vec::new();
    args.push(String::from_str(a));
    assert(texts_view(args@) =~= seq![a@]);
    Step { action: Action::Systemctl { args }, required }
}

/// The step that runs the control command with the two arguments `a` and `b`.
fn command_step_2(a: &str, b: &str, required: bool) -> (step: Step)
    ensures
        step@ == command_step(seq![a@, b@], required),
{
    let mut args: Vec<String> = Vec::new();
    args.push(String::from_str(a));
    args.push(String::from_str(b));
    assert(texts_view(args@) =~= seq![a@, b@]);
    Step { action: Action::Systemctl { args }, required }
}

/// The steps that register the service `name` with the service manager: the manager
/// reads its unit files again, then enables the service.
pub fn systemd_install_daemon(name: &str) -> (plan: Vec<Step>)
    ensures
        steps_view(plan@) == install_plan(name@),
{
    let mut plan: Vec<Step> = Vec::new();
    plan.push(command_step_1("daemon-reload", true));
    plan.push(command_step_2("enable", name, true));
    assert(steps_view(plan@) =~= install_plan(name@));
    plan
}

/// The steps that take the service `name` off the service manager's books: the
/// service is disabled, which has to succeed; then the manager reads its unit files
/// again and forgets the failures it recorded, whether or not either works.
pub fn systemd_uninstall_daemon(name: &str) -> (plan: Vec<Step>)
    ensures
        steps_view(plan@) == uninstall_plan(name@),
{
    let mut plan: Vec<Step> = Vec::new();
    plan.push(command_step_2("disable", name, true));
    plan.push(command_step_1("daemon-reload", false));
    plan.push(command_step_1("reset-failed", false));
    assert(steps_view(plan@) =~= uninstall_plan(name@));
    plan
}

/// The step that starts the service `name`.
pub fn systemd_start_daemon(name: &str) -> (plan: Vec<Step>)
    ensures
        steps_view(plan@) == start_plan(name@),
{
    let mut plan: Vec<Step> = Vec::new();
    plan.push(command_step_2("start", name, true));
    assert(steps_view(plan@) =~= start_plan(name@));
    plan
}

/// The step that stops the service `name`.
pub fn systemd_stop_daemon(name: &str) -> (plan: Vec<Step>)
    ensures
        steps_view(plan@) == stop_plan(name@),
{
    let mut plan: Vec<Step> = Vec::new();
    plan.push(command_step_2("stop", name, true));
    assert(steps_view(plan@) =~= stop_plan(name@));
    plan
}

/// Appends the steps of `tail` to `plan`.
fn append_steps(plan: &mut Vec<Step>, tail: Vec<Step>)
    ensures
        steps_view(final(plan)@) == steps_view(old(plan)@) + steps_view(tail@),
{
    let mut tail = tail;
    let ghost before = plan@;
    let ghost added = tail@;
    plan.append(&mut tail);
    assert(steps_view(plan@) =~= steps_view(before) + steps_view(added));
}

/// The path of the program that is running, from what reading the link
/// `/proc/self/exe` gave: the path; `None` for a path that is no text; or the reason
/// why the link could not be read.
pub fn resolve_executable(link: Result<Option<String>, String>) -> (r: Result<String, OpError>)
    ensures
        match link {
            Ok(Some(path)) => r matches Ok(p) && p@ == path@,
            Ok(None) => r matches Err(e) && e@ == (OpErrorView::IoError {
                message: "Failed to parse /proc/self/exe"@,
            }),
            Err(cause) => r matches Err(e) && e@ == (OpErrorView::IoError {
                message: "Failed to read /proc/self/exe: "@ + cause@,
            }),
        },
{
    match link {
        Ok(Some(path)) => Ok(path),
        Ok(None) => Err(
            OpError::IoError { message: String::from_str("Failed to parse /proc/self/exe") },
        ),
        Err(cause) => {
            let mut message = String::from_str("Failed to read /proc/self/exe: ");
            message.append(cause.as_str());
            Err(OpError::IoError { message })
        },
    }
}

/// What the controller knows of the service: its name, and what describes it.
#[derive(Debug, Clone, PartialEq, Eq)]
pub struct LinuxController {
    pub service_name: String,
    pub display_name: String,
    pub description: String,
    pub config: Option<String>,
}

/// The text of a configuration that may be absent.
pub open spec fn config_view(config: Option<String>) -> Option<Seq<char>> {
    match config {
        Some(text) => Some(text@),
        None => None,
    }
}

/// The operations that every backend's controller offers. Each one hands out the work
/// to do, and takes no action on the system itself.
pub trait ControllerInterface {
    /// The operation that writes the service's descriptor and registers the service.
    /// `executable` is the path of the program that the service runs.
    fn create(&mut self, executable: &str) -> Operation;

    /// The operation that unregisters the service and removes its descriptor.
    fn delete(&mut self) -> Operation;

    /// The operation that starts the service.
    fn start(&mut self) -> Operation;

    /// The operation that stops the service.
    fn stop(&mut self) -> Operation;

    /// The status query, before its first step.
    fn get_status(&self) -> StatusProbe;
}

impl LinuxController {
    /// The controller of the service `service_name`, without a configuration.
    pub fn new(service_name: &str, display_name: &str, description: &str) -> (c: LinuxController)
        ensures
            c.service_name@ == service_name@,
            c.display_name@ == display_name@,
            c.description@ == description@,
            c.config is None,
    {
        LinuxController {
            service_name: String::from_str(service_name),
            display_name: String::from_str(display_name),
            description: String::from_str(description),
            config: None,
        }
    }

    /// The name of the service's unit file.
    pub fn get_service_file_name(&self) -> (name: String)
        ensures
            name@ == service_file_name(self.service_name@),
    {
        let mut name = self.service_name.clone();
        name.append(".service");
        name
    }

    /// The path of the service's unit file.
    pub fn get_service_unit_path(&self) -> (path: String)
        ensures
            path@ == service_unit_path(self.service_name@),
    {
        let file = self.get_service_file_name();
        join("/lib/systemd/system/", file.as_str())
    }

    /// The path of the service's drop-in directory.
    pub fn get_service_dropin_dir(&self) -> (path: String)
        ensures
            path@ == service_dropin_dir(self.service_name@),
    {
        let mut file = self.get_service_file_name();
        file.append(".d");
        join("/lib/systemd/system/", file.as_str())
    }

    /// The path of the configuration file in the service's drop-in directory.
    pub fn get_service_config_path(&self) -> (path: String)
        ensures
            path@ == service_config_path(self.service_name@),
    {
        let dir = self.get_service_dropin_dir();
        let mut file = self.service_name.clone();
        file.append(".conf");
        join(dir.as_str(), file.as_str())
    }

    /// The service's unit file, which starts the program at `executable`.
    pub fn get_service_unit_content(&self, executable: &str) -> (content: String)
        ensures
            content@ == service_unit_content(self.service_name@, executable@),
    {
        let mut content = String::from_str("\n[Unit]\nDescription=");
        content.append(self.service_name.as_str());
        content.append("\n\n[Service]\nExecStart=");
        content.append(executable);
        content.append("\n\n[Install]\nWantedBy=multi-user.target");
        content
    }

    /// The steps that write the service's descriptor: the unit file, and, where the
    /// controller has a configuration, the drop-in directory and the configuration in
    /// it. Each of them has to succeed.
    pub fn write_service_config(&self, executable: &str) -> (plan: Vec<Step>)
        ensures
            steps_view(plan@) == write_config_plan(
                self.service_name@,
                config_view(self.config),
                executable@,
            ),
    {
        let mut plan: Vec<Step> = Vec::new();
        plan.push(
            Step {
                action: Action::WriteFile {
                    path: self.get_service_unit_path(),
                    content: self.get_service_unit_content(executable),
                },
                required: true,
            },
        );
        match &self.config {
            Some(config) => {
                plan.push(
                    Step {
                        action: Action::CreateDir {
                            path: self.get_service_dropin_dir(),
                            target: self.get_service_config_path(),
                        },
                        required: true,
                    },
                );
                plan.push(
                    Step {
                        action: Action::WriteFile {
                            path: self.get_service_config_path(),
                            content: config.clone(),
                        },
                        required: true,
                    },
                );
            },
            None => {},
        }
        assert(steps_view(plan@) =~= write_config_plan(
            self.service_name@,
            config_view(self.config),
            executable@,
        ));
        plan
    }

    /// The steps that remove the service's descriptor: the unit file and the drop-in
    /// directory. Neither has to succeed.
    pub fn remove_service_config(&self) -> (plan: Vec<Step>)
        ensures
            steps_view(plan@) == remove_config_plan(self.service_name@),
    {
        let mut plan: Vec<Step> = Vec::new();
        plan.push(
            Step {
                action: Action::RemoveFile { path: self.get_service_unit_path() },
                required: false,
            },
        );
        plan.push(
            Step {
                action: Action::RemoveDirAll { path: self.get_service_dropin_dir() },
                required: false,
            },
        );
        assert(steps_view(plan@) =~= remove_config_plan(self.service_name@));
        plan
    }
}

impl ControllerInterface for LinuxController {
    fn create(&mut self, executable: &str) -> (op: Operation)
        ensures
            *final(self) == *old(self),
            op@ == OperationView::start(
                write_config_plan(
                    old(self).service_name@,
                    config_view(old(self).config),
                    executable@,
                ) + install_plan(old(self).service_name@),
            ),
    {
        let mut plan = self.write_service_config(executable);
        append_steps(&mut plan, systemd_install_daemon(self.service_name.as_str()));
        Operation::new(plan)
    }

    fn delete(&mut self) -> (op: Operation)
        ensures
            *final(self) == *old(self),
            op@ == OperationView::start(
                uninstall_plan(old(self).service_name@) + remove_config_plan(
                    old(self).service_name@,
                ),
            ),
    {
        let mut plan = systemd_uninstall_daemon(self.service_name.as_str());
        append_steps(&mut plan, self.remove_service_config());
        Operation::new(plan)
    }

    fn start(&mut self) -> (op: Operation)
        ensures
            *final(self) == *old(self),
            op@ == OperationView::start(start_plan(old(self).service_name@)),
    {
        Operation::new(systemd_start_daemon(self.service_name.as_str()))
    }

    fn stop(&mut self) -> (op: Operation)
        ensures
            *final(self) == *old(self),
            op@ == OperationView::start(stop_plan(old(self).service_name@)),
    {
        Operation::new(systemd_stop_daemon(self.service_name.as_str()))
    }

    fn get_status(&self) -> (probe: StatusProbe)
        ensures
            probe@ == StatusProbeView::start(self.service_name@),
    {
        StatusProbe::new(self.service_name.as_str())
    }
}

} // verus!
