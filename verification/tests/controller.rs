use ceviche::controller::executor::CommandOutcome;
use ceviche::controller::linux::{
    join, resolve_executable, systemd_install_daemon, systemd_start_daemon, systemd_stop_daemon,
    systemd_uninstall_daemon,
};
use ceviche::controller::operation::{failure_of, Action, Operation, Step};
use ceviche::controller::probe::{Query, StatusProbe};
use ceviche::controller::{
    ActiveState, BasicServiceStatus, Controller, ControllerInterface, LinuxController,
    ServiceState, ServiceStatus,
};
use ceviche::error::{ExecError, OpError, ParseError};

fn command(items: &[&str], required: bool) -> Step {
    Step {
        action: Action::Systemctl { args: items.iter().map(|s| s.to_string()).collect() },
        required,
    }
}

fn succeeded(stdout: &str) -> CommandOutcome {
    CommandOutcome::Exited {
        exit_code: Some(0),
        stdout: stdout.as_bytes().to_vec(),
        stderr: Vec::new(),
    }
}

fn failed(code: i32, stderr: &str) -> CommandOutcome {
    CommandOutcome::Exited {
        exit_code: Some(code),
        stdout: Vec::new(),
        stderr: stderr.as_bytes().to_vec(),
    }
}

/// The steps of an operation in the order in which it asks for them, each of them
/// reported as a success.
fn steps_when_all_succeed(mut op: Operation) -> (Vec<Step>, Result<(), OpError>) {
    let mut seen: Vec<Step> = Vec::new();
    loop {
        let step = match op.pending() {
            Some(step) => step.clone(),
            None => break,
        };
        match &step.action {
            Action::Systemctl { .. } => op.command_finished(succeeded("")),
            _ => op.io_finished(Ok(())),
        }
        seen.push(step);
    }
    let result = op.result().expect("the operation is over").map_err(|e| e.clone());
    (seen, result)
}

/// Runs an operation in which the steps whose number is in `failing` fail.
fn run_with_failures(mut op: Operation, failing: &[usize]) -> (usize, Result<(), OpError>) {
    let mut done: usize = 0;
    loop {
        let is_command = match op.pending() {
            Some(step) => matches!(step.action, Action::Systemctl { .. }),
            None => break,
        };
        let fails = failing.contains(&done);
        if is_command {
            op.command_finished(if fails { failed(1, "no") } else { succeeded("") });
        } else {
            op.io_finished(if fails { Err("denied".to_string()) } else { Ok(()) });
        }
        done += 1;
    }
    let result = op.result().expect("the operation is over").map_err(|e| e.clone());
    (done, result)
}

fn answer_status(
    controller: &LinuxController,
    pid_answer: CommandOutcome,
    failed_answer: CommandOutcome,
    cmdline: Option<&str>,
    status_answer: CommandOutcome,
) -> Result<ServiceStatus, OpError> {
    let mut probe = controller.get_status();
    let mut command_answers = vec![pid_answer, failed_answer, status_answer].into_iter();
    loop {
        match probe.query() {
            None => break,
            Some(Query::Systemctl { .. }) => {
                probe = probe.command_finished(command_answers.next().unwrap());
            }
            Some(Query::ReadCmdline { .. }) => {
                probe = probe.cmdline_read(cmdline.map(|s| s.to_string()));
            }
        }
    }
    probe.finish().expect("the query is over")
}

#[test]
fn create_delete_test() {
    let mut controller = Controller::new("ceviche-rs-test-svc", "", "");
    let (_, created) = steps_when_all_succeed(controller.create("/usr/bin/ceviche-rs-test-svc"));
    assert!(created.is_ok());
    let (_, deleted) = steps_when_all_succeed(controller.delete());
    assert!(deleted.is_ok());
}

#[test]
fn status_test() {
    let controller = Controller::new("dbus", "", "");
    let status = answer_status(
        &controller,
        succeeded("MainPID=612\n"),
        failed(1, ""),
        Some("/usr/bin/dbus-daemon\0--system\0"),
        succeeded(
            "● dbus.service - D-Bus System Message Bus\n     Active: active (running) since Mon\n",
        ),
    );
    assert_eq!(status.is_ok(), true);
    if let Ok(status) = status {
        status.get_cmdline();
        status.is_running();
        status.is_failed();
        println!("status: {:?}", status);
        status.is_active();
        if matches!(status.state, ServiceState::Active(_)) {
            println!("is active: {:?}", status.state);
        }
        assert_eq!(status.state, ServiceState::Active(ActiveState::Running));
        assert_eq!(status.pid, 612);
        assert_eq!(status.get_cmdline(), "/usr/bin/dbus-daemon\0--system\0");
        assert!(!status.is_failed());
        assert!(status.is_running());
    }
}

#[test]
fn new_controller_has_the_names_and_no_configuration() {
    let c = LinuxController::new("foobar", "FooBar Service", "This is the FooBar service");
    assert_eq!(c.service_name, "foobar");
    assert_eq!(c.display_name, "FooBar Service");
    assert_eq!(c.description, "This is the FooBar service");
    assert_eq!(c.config, None);
}

#[test]
fn descriptor_paths() {
    let c = LinuxController::new("foobar", "", "");
    assert_eq!(c.get_service_file_name(), "foobar.service");
    assert_eq!(c.get_service_unit_path(), "/lib/systemd/system/foobar.service");
    assert_eq!(c.get_service_dropin_dir(), "/lib/systemd/system/foobar.service.d");
    assert_eq!(
        c.get_service_config_path(),
        "/lib/systemd/system/foobar.service.d/foobar.conf"
    );
    let c = LinuxController::new("", "", "");
    assert_eq!(c.get_service_file_name(), ".service");
    assert_eq!(c.get_service_unit_path(), "/lib/systemd/system/.service");
}

#[test]
fn joined_paths() {
    assert_eq!(join("/lib/systemd/system/", "a.service"), "/lib/systemd/system/a.service");
    assert_eq!(join("/lib/systemd/system", "a.service"), "/lib/systemd/system/a.service");
    assert_eq!(join("/lib/systemd/system/", "/etc/a.service"), "/etc/a.service");
    assert_eq!(join("", "a"), "a");
    assert_eq!(join("a", ""), "a/");
    assert_eq!(join("/", "a"), "/a");
    let c = LinuxController::new("/opt/x", "", "");
    assert_eq!(c.get_service_unit_path(), "/opt/x.service");
}

#[test]
fn unit_file_content() {
    let c = LinuxController::new("foobar", "FooBar Service", "This is the FooBar service");
    assert_eq!(
        c.get_service_unit_content("/usr/local/bin/foobar"),
        "\n[Unit]\nDescription=foobar\n\n[Service]\nExecStart=/usr/local/bin/foobar\n\n\
         [Install]\nWantedBy=multi-user.target"
    );
}

#[test]
fn executable_from_the_link() {
    assert_eq!(
        resolve_executable(Ok(Some("/usr/bin/foo".to_string()))),
        Ok("/usr/bin/foo".to_string())
    );
    assert_eq!(
        resolve_executable(Ok(None)),
        Err(OpError::IoError { message: "Failed to parse /proc/self/exe".to_string() })
    );
    assert_eq!(
        resolve_executable(Err("Permission denied (os error 13)".to_string())),
        Err(OpError::IoError {
            message: "Failed to read /proc/self/exe: Permission denied (os error 13)".to_string()
        })
    );
}

#[test]
fn service_manager_plans() {
    assert_eq!(
        systemd_install_daemon("foo"),
        vec![command(&["daemon-reload"], true), command(&["enable", "foo"], true)]
    );
    assert_eq!(
        systemd_uninstall_daemon("foo"),
        vec![
            command(&["disable", "foo"], true),
            command(&["daemon-reload"], false),
            command(&["reset-failed"], false),
        ]
    );
    assert_eq!(systemd_start_daemon("foo"), vec![command(&["start", "foo"], true)]);
    assert_eq!(systemd_stop_daemon("foo"), vec![command(&["stop", "foo"], true)]);
}

#[test]
fn create_without_configuration() {
    let mut c = LinuxController::new("foo", "", "");
    let (steps, result) = steps_when_all_succeed(c.create("/bin/foo"));
    assert_eq!(result, Ok(()));
    assert_eq!(
        steps,
        vec![
            Step {
                action: Action::WriteFile {
                    path: "/lib/systemd/system/foo.service".to_string(),
                    content: c.get_service_unit_content("/bin/foo"),
                },
                required: true,
            },
            command(&["daemon-reload"], true),
            command(&["enable", "foo"], true),
        ]
    );
    assert_eq!(steps[..1].to_vec(), c.write_service_config("/bin/foo"));
}

#[test]
fn create_with_configuration() {
    let mut c = LinuxController::new("foo", "", "");
    c.config = Some("[Service]\nRestart=always\n".to_string());
    let (steps, result) = steps_when_all_succeed(c.create("/bin/foo"));
    assert_eq!(result, Ok(()));
    assert_eq!(
        steps,
        vec![
            Step {
                action: Action::WriteFile {
                    path: "/lib/systemd/system/foo.service".to_string(),
                    content: c.get_service_unit_content("/bin/foo"),
                },
                required: true,
            },
            Step {
                action: Action::CreateDir {
                    path: "/lib/systemd/system/foo.service.d".to_string(),
                    target: "/lib/systemd/system/foo.service.d/foo.conf".to_string(),
                },
                required: true,
            },
            Step {
                action: Action::WriteFile {
                    path: "/lib/systemd/system/foo.service.d/foo.conf".to_string(),
                    content: "[Service]\nRestart=always\n".to_string(),
                },
                required: true,
            },
            command(&["daemon-reload"], true),
            command(&["enable", "foo"], true),
        ]
    );
}

#[test]
fn delete_unregisters_then_removes_the_descriptor() {
    let mut c = LinuxController::new("foo", "", "");
    let (steps, result) = steps_when_all_succeed(c.delete());
    assert_eq!(result, Ok(()));
    assert_eq!(
        steps,
        vec![
            command(&["disable", "foo"], true),
            command(&["daemon-reload"], false),
            command(&["reset-failed"], false),
            Step {
                action: Action::RemoveFile { path: "/lib/systemd/system/foo.service".to_string() },
                required: false,
            },
            Step {
                action: Action::RemoveDirAll {
                    path: "/lib/systemd/system/foo.service.d".to_string()
                },
                required: false,
            },
        ]
    );
    assert_eq!(steps[3..].to_vec(), c.remove_service_config());
}

#[test]
fn start_and_stop_are_one_command_each() {
    let mut c = LinuxController::new("foo", "", "");
    let (steps, result) = steps_when_all_succeed(c.start());
    assert_eq!(result, Ok(()));
    assert_eq!(steps, vec![command(&["start", "foo"], true)]);
    let (steps, result) = steps_when_all_succeed(c.stop());
    assert_eq!(result, Ok(()));
    assert_eq!(steps, vec![command(&["stop", "foo"], true)]);
    assert_eq!(c, LinuxController::new("foo", "", ""));
}

#[test]
fn failure_of_a_required_step_ends_the_operation() {
    let mut c = LinuxController::new("foo", "", "");
    c.config = Some("x".to_string());
    // The directory cannot be created: nothing after it is asked for.
    let (done, result) = run_with_failures(c.create("/bin/foo"), &[1]);
    assert_eq!(done, 2);
    assert_eq!(
        result,
        Err(OpError::IoError {
            message: "Failed to create /lib/systemd/system/foo.service.d/foo.conf: denied"
                .to_string()
        })
    );
    // The unit file cannot be written.
    let (done, result) = run_with_failures(c.create("/bin/foo"), &[0, 3]);
    assert_eq!(done, 1);
    assert_eq!(
        result,
        Err(OpError::IoError {
            message: "Failed to write /lib/systemd/system/foo.service: denied".to_string()
        })
    );
    // The service cannot be enabled.
    let (done, result) = run_with_failures(c.create("/bin/foo"), &[4]);
    assert_eq!(done, 5);
    assert_eq!(
        result,
        Err(OpError::Exec(ExecError::CommandError {
            command: "enable".to_string(),
            exit_code: Some(1),
            stderr: "no".to_string(),
        }))
    );
}

#[test]
fn delete_reports_the_unregister_step_alone() {
    let mut c = LinuxController::new("foo", "", "");
    // Everything but the unregister step fails: the result is a success.
    let (done, result) = run_with_failures(c.delete(), &[1, 2, 3, 4]);
    assert_eq!(done, 5);
    assert_eq!(result, Ok(()));
    // The unregister step fails: the operation ends there with its error.
    let (done, result) = run_with_failures(c.delete(), &[0]);
    assert_eq!(done, 1);
    assert_eq!(
        result,
        Err(OpError::Exec(ExecError::CommandError {
            command: "disable".to_string(),
            exit_code: Some(1),
            stderr: "no".to_string(),
        }))
    );
}

#[test]
fn operation_without_steps_is_over_at_once() {
    let op = Operation::new(Vec::new());
    assert_eq!(op.pending(), None);
    assert_eq!(op.result(), Some(Ok(())));
}

#[test]
fn reports_that_do_not_fit_the_pending_step_change_nothing() {
    let mut op = Operation::new(vec![
        command(&["start", "foo"], true),
        Step { action: Action::RemoveFile { path: "/x".to_string() }, required: true },
    ]);
    assert_eq!(op.result(), None);
    op.io_finished(Err("denied".to_string()));
    assert_eq!(op.pending(), Some(&command(&["start", "foo"], true)));
    assert_eq!(op.result(), None);
    op.command_finished(succeeded(""));
    let second = Step { action: Action::RemoveFile { path: "/x".to_string() }, required: true };
    assert_eq!(op.pending(), Some(&second));
    op.command_finished(failed(1, ""));
    assert_eq!(op.pending(), Some(&second));
    op.io_finished(Err("denied".to_string()));
    assert_eq!(op.pending(), None);
    let expected = OpError::IoError { message: "Failed to delete /x: denied".to_string() };
    assert_eq!(op.result(), Some(Err(&expected)));
    // An operation that is over stays as it is.
    op.io_finished(Ok(()));
    op.command_finished(succeeded(""));
    assert_eq!(op.result(), Some(Err(&expected)));
}

#[test]
fn command_that_cannot_be_started_fails_its_step() {
    let mut op = Operation::new(vec![command(&["start", "foo"], true)]);
    op.command_finished(CommandOutcome::SpawnFailed { cause: "not found".to_string() });
    let expected = OpError::Exec(ExecError::SpawnError {
        command: "start".to_string(),
        cause: "not found".to_string(),
    });
    assert_eq!(op.result(), Some(Err(&expected)));
    // A command without arguments has the empty name.
    let mut op = Operation::new(vec![command(&[], true)]);
    op.command_finished(CommandOutcome::SpawnFailed { cause: "not found".to_string() });
    let expected = OpError::Exec(ExecError::SpawnError {
        command: String::new(),
        cause: "not found".to_string(),
    });
    assert_eq!(op.result(), Some(Err(&expected)));
}

#[test]
fn failures_of_actions_that_were_not_carried_out() {
    let write = Action::WriteFile { path: "/a".to_string(), content: "c".to_string() };
    let dir = Action::CreateDir { path: "/d".to_string(), target: "/d/f".to_string() };
    let file = Action::RemoveFile { path: "/a".to_string() };
    let all = Action::RemoveDirAll { path: "/d".to_string() };
    let run = Action::Systemctl { args: vec!["start".to_string(), "foo".to_string()] };
    let io = |message: &str| OpError::IoError { message: message.to_string() };
    assert_eq!(failure_of(&write, "why"), io("Failed to write /a: why"));
    assert_eq!(failure_of(&dir, "why"), io("Failed to create /d/f: why"));
    assert_eq!(failure_of(&file, "why"), io("Failed to delete /a: why"));
    assert_eq!(failure_of(&all, "why"), io("Failed to delete /d: why"));
    assert_eq!(
        failure_of(&run, "why"),
        OpError::Exec(ExecError::SpawnError {
            command: "start".to_string(),
            cause: "why".to_string(),
        })
    );
    assert_eq!(failure_of(&run, "why").message(), "Failed to execute command start: why");
}

#[test]
fn status_query_asks_its_four_questions_in_order() {
    let controller = LinuxController::new("foo", "", "");
    let args = |items: &[&str]| -> Vec<String> { items.iter().map(|s| s.to_string()).collect() };
    let probe = controller.get_status();
    assert!(!probe.is_finished());
    assert_eq!(
        probe.query(),
        Some(Query::Systemctl { args: args(&["show", "-p", "MainPID", "foo"]) })
    );
    let probe = probe.command_finished(succeeded("MainPID=4321\n"));
    assert_eq!(probe.query(), Some(Query::Systemctl { args: args(&["is-failed", "foo"]) }));
    let probe = probe.command_finished(succeeded("failed\n"));
    assert_eq!(
        probe.query(),
        Some(Query::ReadCmdline { path: "/proc/4321/cmdline".to_string() })
    );
    let probe = probe.cmdline_read(Some("/bin/foo\0".to_string()));
    assert_eq!(probe.query(), Some(Query::Systemctl { args: args(&["status", "foo"]) }));
    let probe = probe.command_finished(succeeded("Active: active (exited)"));
    assert!(probe.is_finished());
    assert_eq!(probe.query(), None);
    assert_eq!(
        probe.finish(),
        Some(Ok(ServiceStatus {
            state: ServiceState::Active(ActiveState::Exited),
            cmdline: "/bin/foo\0".to_string(),
            pid: 4321,
            is_failed: true,
            raw_details: "Active: active (exited)".to_string(),
        }))
    );
    assert_eq!(StatusProbe::new("foo").finish(), None);
}

#[test]
fn status_query_ends_with_the_first_failure() {
    let c = LinuxController::new("foo", "", "");
    let ok_status = || succeeded("active (running)");
    // The process id cannot be had.
    assert_eq!(
        answer_status(&c, failed(4, "no such unit"), succeeded(""), Some("x"), ok_status()),
        Err(OpError::Exec(ExecError::CommandError {
            command: "show".to_string(),
            exit_code: Some(4),
            stderr: "no such unit".to_string(),
        }))
    );
    // The process id is no number.
    assert_eq!(
        answer_status(&c, succeeded("MainPID=none"), succeeded(""), Some("x"), ok_status()),
        Err(OpError::Parse(ParseError::MalformedPid { raw_text: "MainPID=none".to_string() }))
    );
    // The process is gone.
    let gone = answer_status(&c, succeeded("MainPID=55"), succeeded(""), None, ok_status());
    assert_eq!(gone, Err(OpError::ProcessGone { pid: 55 }));
    // The status text cannot be had.
    assert_eq!(
        answer_status(&c, succeeded("MainPID=55"), succeeded(""), Some("x"), failed(3, "down")),
        Err(OpError::Exec(ExecError::CommandError {
            command: "status".to_string(),
            exit_code: Some(3),
            stderr: "down".to_string(),
        }))
    );
    // The status text has no marker.
    assert_eq!(
        answer_status(&c, succeeded("MainPID=55"), succeeded(""), Some("x"), succeeded("???")),
        Err(OpError::Parse(ParseError::UnrecognizedState { raw_text: "???".to_string() }))
    );
}

#[test]
fn failed_flag_that_cannot_be_had_is_not_set() {
    let c = LinuxController::new("foo", "", "");
    let with = |failed_answer: CommandOutcome| {
        answer_status(&c, succeeded("MainPID=1"), failed_answer, Some(""), succeeded("(dead)"))
            .unwrap()
            .is_failed
    };
    assert!(with(succeeded("failed\n")));
    assert!(!with(succeeded("inactive\n")));
    assert!(!with(failed(1, "failed")));
    assert!(!with(CommandOutcome::SpawnFailed { cause: "failed".to_string() }));
}

#[test]
fn status_queries_without_a_change_between_them_agree() {
    let c = LinuxController::new("foo", "", "");
    let first = answer_status(
        &c,
        succeeded("MainPID=10"),
        succeeded("failed"),
        Some("/bin/foo\0"),
        succeeded("Active: active (running)"),
    )
    .unwrap();
    let second = answer_status(
        &c,
        succeeded("MainPID=11"),
        succeeded("failed"),
        Some("/bin/foo\0-x\0"),
        succeeded("Active: active (running)"),
    )
    .unwrap();
    assert_eq!(first.state, second.state);
    assert_eq!(first.is_failed, second.is_failed);
    assert_ne!(first.pid, second.pid);
}

#[test]
fn answers_that_do_not_fit_the_open_question_change_nothing() {
    let probe = StatusProbe::new("foo");
    let probe = probe.cmdline_read(None);
    assert!(!probe.is_finished());
    let probe = probe.command_finished(succeeded("MainPID=8"));
    let probe = probe.command_finished(succeeded(""));
    // The command line is asked for now: a command's outcome is not taken.
    let probe = probe.command_finished(succeeded("active (running)"));
    assert_eq!(probe.query(), Some(Query::ReadCmdline { path: "/proc/8/cmdline".to_string() }));
    let probe = probe.cmdline_read(None);
    assert!(probe.is_finished());
    // A query that is over stays as it is.
    let probe = probe.cmdline_read(Some("x".to_string()));
    let probe = probe.command_finished(succeeded("active (running)"));
    assert_eq!(probe.finish(), Some(Err(OpError::ProcessGone { pid: 8 })));
}
