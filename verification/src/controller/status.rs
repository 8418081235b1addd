//! The normalized state of a service, read from what the service manager prints.

use crate::error::{ExecError, ParseError, ParseErrorView};
use crate::text::{
    chars_contain, chars_of, contains, occurs_in, parse_u32, parse_u32_chars, strip_leading,
    strip_leading_chars, trim, trim_chars,
};
use vstd::prelude::*;
use vstd::string::*;

verus! {

/// What an active service is doing.
#[derive(Debug, Clone, Copy, PartialEq, Eq, Structural)]
pub enum ActiveState {
    Running,
    Exited,
    Waiting,
    Dead,
}

/// Why an inactive service is at rest.
#[derive(Debug, Clone, Copy, PartialEq, Eq, Structural)]
pub enum InactiveState {
    Dead,
    Exited,
    Waiting,
    Resetting,
}

/// The state of a service at the moment of one status query.
#[derive(Debug, Clone, Copy, PartialEq, Eq, Structural)]
pub enum ServiceState {
    Active(ActiveState),
    Inactive(InactiveState),
}

/// The marker in a status text that selects the active branch.
pub open spec fn active_branch_marker() -> Seq<char> {
    "active ("@
}

/// The marker in a status text that stands for an active substate.
pub open spec fn active_marker(substate: ActiveState) -> Seq<char> {
    match substate {
        ActiveState::Running => "(running)"@,
        ActiveState::Exited => "(exited)"@,
        ActiveState::Waiting => "(waiting)"@,
        ActiveState::Dead => "(dead)"@,
    }
}

/// The marker in a status text that stands for an inactive substate.
pub open spec fn inactive_marker(substate: InactiveState) -> Seq<char> {
    match substate {
        InactiveState::Dead => "(dead)"@,
        InactiveState::Exited => "(exited)"@,
        InactiveState::Waiting => "(waiting)"@,
        InactiveState::Resetting => "(resetting)"@,
    }
}

/// The first active substate, in the order running, exited, waiting, dead, whose marker
/// stands in `raw`.
pub open spec fn active_substate(raw: Seq<char>) -> Option<ActiveState> {
    if occurs_in(raw, active_marker(ActiveState::Running)) {
        Some(ActiveState::Running)
    } else if occurs_in(raw, active_marker(ActiveState::Exited)) {
        Some(ActiveState::Exited)
    } else if occurs_in(raw, active_marker(ActiveState::Waiting)) {
        Some(ActiveState::Waiting)
    } else if occurs_in(raw, active_marker(ActiveState::Dead)) {
        Some(ActiveState::Dead)
    } else {
        None
    }
}

/// The first inactive substate, in the order dead, exited, waiting, resetting, whose
/// marker stands in `raw`.
pub open spec fn inactive_substate(raw: Seq<char>) -> Option<InactiveState> {
    if occurs_in(raw, inactive_marker(InactiveState::Dead)) {
        Some(InactiveState::Dead)
    } else if occurs_in(raw, inactive_marker(InactiveState::Exited)) {
        Some(InactiveState::Exited)
    } else if occurs_in(raw, inactive_marker(InactiveState::Waiting)) {
        Some(InactiveState::Waiting)
    } else if occurs_in(raw, inactive_marker(InactiveState::Resetting)) {
        Some(InactiveState::Resetting)
    } else {
        None
    }
}

/// The state that a status text stands for: the branch by the marker `active (`, the
/// substate by the first marker of that branch; `None` where the branch has no marker
/// in the text.
pub open spec fn service_state(raw: Seq<char>) -> Option<ServiceState> {
    if occurs_in(raw, active_branch_marker()) {
        match active_substate(raw) {
            Some(substate) => Some(ServiceState::Active(substate)),
            None => None,
        }
    } else {
        match inactive_substate(raw) {
            Some(substate) => Some(ServiceState::Inactive(substate)),
            None => None,
        }
    }
}

/// A status text that selects the active branch and holds the marker of exactly one
/// active substate stands for that substate.
pub proof fn lemma_single_active_marker(raw: Seq<char>, substate: ActiveState)
    requires
        occurs_in(raw, active_branch_marker()),
        occurs_in(raw, active_marker(substate)),
        forall|other: ActiveState|
            other != substate ==> !occurs_in(raw, #[trigger] active_marker(other)),
    ensures
        service_state(raw) == Some(ServiceState::Active(substate)),
{
    assert(substate != ActiveState::Running ==> !occurs_in(
        raw,
        active_marker(ActiveState::Running),
    ));
    assert(substate != ActiveState::Exited ==> !occurs_in(
        raw,
        active_marker(ActiveState::Exited),
    ));
    assert(substate != ActiveState::Waiting ==> !occurs_in(
        raw,
        active_marker(ActiveState::Waiting),
    ));
}

/// A status text that does not select the active branch and holds the marker of exactly
/// one inactive substate stands for that substate.
pub proof fn lemma_single_inactive_marker(raw: Seq<char>, substate: InactiveState)
    requires
        !occurs_in(raw, active_branch_marker()),
        occurs_in(raw, inactive_marker(substate)),
        forall|other: InactiveState|
            other != substate ==> !occurs_in(raw, #[trigger] inactive_marker(other)),
    ensures
        service_state(raw) == Some(ServiceState::Inactive(substate)),
{
    assert(substate != InactiveState::Dead ==> !occurs_in(
        raw,
        inactive_marker(InactiveState::Dead),
    ));
    assert(substate != InactiveState::Exited ==> !occurs_in(
        raw,
        inactive_marker(InactiveState::Exited),
    ));
    assert(substate != InactiveState::Waiting ==> !occurs_in(
        raw,
        inactive_marker(InactiveState::Waiting),
    ));
}

/// A status text stands for no state exactly when the branch that it selects has none
/// of its markers in the text: no state is ever made up.
pub proof fn lemma_unrecognized_state(raw: Seq<char>)
    ensures
        service_state(raw) is None <==> if occurs_in(raw, active_branch_marker()) {
            forall|substate: ActiveState| !occurs_in(raw, #[trigger] active_marker(substate))
        } else {
            forall|substate: InactiveState| !occurs_in(raw, #[trigger] inactive_marker(substate))
        },
        service_state(raw) matches Some(ServiceState::Active(substate)) ==> occurs_in(
            raw,
            active_branch_marker(),
        ) && occurs_in(raw, active_marker(substate)),
        service_state(raw) matches Some(ServiceState::Inactive(substate)) ==> !occurs_in(
            raw,
            active_branch_marker(),
        ) && occurs_in(raw, inactive_marker(substate)),
{
    if occurs_in(raw, active_branch_marker()) {
        if active_substate(raw) is None {
            assert forall|substate: ActiveState| !occurs_in(
                raw,
                #[trigger] active_marker(substate),
            ) by {
                match substate {
                    ActiveState::Running => {},
                    ActiveState::Exited => {},
                    ActiveState::Waiting => {},
                    ActiveState::Dead => {},
                }
            }
        } else {
            assert(occurs_in(raw, active_marker(active_substate(raw).unwrap())));
        }
    } else {
        if inactive_substate(raw) is None {
            assert forall|substate: InactiveState| !occurs_in(
                raw,
                #[trigger] inactive_marker(substate),
            ) by {
                match substate {
                    InactiveState::Dead => {},
                    InactiveState::Exited => {},
                    InactiveState::Waiting => {},
                    InactiveState::Resetting => {},
                }
            }
        } else {
            assert(occurs_in(raw, inactive_marker(inactive_substate(raw).unwrap())));
        }
    }
}

/// The first active substate whose marker stands in the characters `raw`.
fn find_active_substate(raw: &Vec<char>) -> (r: Option<ActiveState>)
    ensures
        r == active_substate(raw@),
{
    if chars_contain(raw, &chars_of("(running)")) {
        Some(ActiveState::Running)
    } else if chars_contain(raw, &chars_of("(exited)")) {
        Some(ActiveState::Exited)
    } else if chars_contain(raw, &chars_of("(waiting)")) {
        Some(ActiveState::Waiting)
    } else if chars_contain(raw, &chars_of("(dead)")) {
        Some(ActiveState::Dead)
    } else {
        None
    }
}

/// The first inactive substate whose marker stands in the characters `raw`.
fn find_inactive_substate(raw: &Vec<char>) -> (r: Option<InactiveState>)
    ensures
        r == inactive_substate(raw@),
{
    if chars_contain(raw, &chars_of("(dead)")) {
        Some(InactiveState::Dead)
    } else if chars_contain(raw, &chars_of("(exited)")) {
        Some(InactiveState::Exited)
    } else if chars_contain(raw, &chars_of("(waiting)")) {
        Some(InactiveState::Waiting)
    } else if chars_contain(raw, &chars_of("(resetting)")) {
        Some(InactiveState::Resetting)
    } else {
        None
    }
}

/// Reads the state of the service out of a status text. Text around the markers does
/// not matter. A text whose branch has no marker is rejected with the text itself.
pub fn parse_state(raw: &str) -> (r: Result<ServiceState, ParseError>)
    ensures
        match service_state(raw@) {
            Some(state) => r == Ok::<ServiceState, ParseError>(state),
            None => r matches Err(e) && e@ == (ParseErrorView::UnrecognizedState {
                raw_text: raw@,
            }),
        },
{
    let chars = chars_of(raw);
    let found = if chars_contain(&chars, &chars_of("active (")) {
        match find_active_substate(&chars) {
            Some(substate) => Some(ServiceState::Active(substate)),
            None => None,
        }
    } else {
        match find_inactive_substate(&chars) {
            Some(substate) => Some(ServiceState::Inactive(substate)),
            None => None,
        }
    };
    match found {
        Some(state) => Ok(state),
        None => Err(ParseError::UnrecognizedState { raw_text: String::from_str(raw) }),
    }
}

/// The main process id that the text of a `MainPID` query stands for: what is left of
/// the text after its `MainPID=` prefixes and the white space around it, read as a number.
pub open spec fn main_pid(text: Seq<char>) -> Option<u32> {
    parse_u32(trim(strip_leading(text, "MainPID="@)))
}

/// Reads the main process id out of the answer to a `MainPID` query. An answer that
/// holds no number is rejected with the answer itself.
pub fn parse_pid(text: &str) -> (r: Result<u32, ParseError>)
    ensures
        match main_pid(text@) {
            Some(pid) => r == Ok::<u32, ParseError>(pid),
            None => r matches Err(e) && e@ == (ParseErrorView::MalformedPid { raw_text: text@ }),
        },
{
    let chars = chars_of(text);
    let stripped = strip_leading_chars(&chars, &chars_of("MainPID="));
    let trimmed = trim_chars(&stripped);
    match parse_u32_chars(&trimmed) {
        Some(pid) => Ok(pid),
        None => Err(ParseError::MalformedPid { raw_text: String::from_str(text) }),
    }
}

/// Reads the failed flag out of the answer to an `is-failed` query. A query that
/// failed reports no failure of the service.
pub fn failed_flag(answer: &Result<String, ExecError>) -> (flag: bool)
    ensures
        flag == (answer matches Ok(text) && occurs_in(text@, "failed"@)),
{
    match answer {
        Ok(text) => contains(text.as_str(), "failed"),
        Err(_) => false,
    }
}

/// What one status query found out about a service.
#[derive(Debug, Clone, PartialEq, Eq)]
pub struct ServiceStatus {
    pub state: ServiceState,
    pub cmdline: String,
    pub pid: u32,
    pub is_failed: bool,
    pub raw_details: String,
}

/// The mathematical content of a [`ServiceStatus`].
pub struct ServiceStatusView {
    pub state: ServiceState,
    pub cmdline: Seq<char>,
    pub pid: u32,
    pub is_failed: bool,
    pub raw_details: Seq<char>,
}

impl View for ServiceStatus {
    type V = ServiceStatusView;

    open spec fn view(&self) -> ServiceStatusView {
        ServiceStatusView {
            state: self.state,
            cmdline: self.cmdline@,
            pid: self.pid,
            is_failed: self.is_failed,
            raw_details: self.raw_details@,
        }
    }
}

/// The status that a status text stands for, beside what the other queries found.
pub open spec fn status_of(
    raw: Seq<char>,
    failed_flag: bool,
    pid: u32,
    cmdline: Seq<char>,
) -> Result<ServiceStatusView, ParseErrorView> {
    match service_state(raw) {
        Some(state) => Ok(
            ServiceStatusView { state, cmdline, pid, is_failed: failed_flag, raw_details: raw },
        ),
        None => Err(ParseErrorView::UnrecognizedState { raw_text: raw }),
    }
}

/// The mathematical content of the result of [`parse_status`].
pub open spec fn status_result_view(r: Result<ServiceStatus, ParseError>) -> Result<
    ServiceStatusView,
    ParseErrorView,
> {
    match r {
        Ok(status) => Ok(status@),
        Err(e) => Err(e@),
    }
}

/// Builds the status of a service from its status text and from what the other queries
/// found: the failed flag, the main process id and that process's command line. The
/// state comes from the text alone, the text is kept as the raw details, and the rest
/// is taken over as given. A text whose branch has no marker is rejected.
pub fn parse_status(raw: String, failed_flag: bool, pid: u32, cmdline: String) -> (r: Result<
    ServiceStatus,
    ParseError,
>)
    ensures
        status_result_view(r) == status_of(raw@, failed_flag, pid, cmdline@),
{
    match parse_state(raw.as_str()) {
        Ok(state) => Ok(
            ServiceStatus { state, cmdline, pid, is_failed: failed_flag, raw_details: raw },
        ),
        Err(e) => Err(e),
    }
}

/// The state and the failed flag of a status depend on the status text and the failed
/// flag alone: two queries that see the same text and flag agree on both, whatever
/// the process id and the command line are by then.
pub proof fn lemma_status_is_stable(
    raw: Seq<char>,
    failed_flag: bool,
    pid1: u32,
    cmdline1: Seq<char>,
    pid2: u32,
    cmdline2: Seq<char>,
)
    ensures
        status_of(raw, failed_flag, pid1, cmdline1) is Ok <==> status_of(
            raw,
            failed_flag,
            pid2,
            cmdline2,
        ) is Ok,
        status_of(raw, failed_flag, pid1, cmdline1) matches Ok(first) ==> {
            &&& status_of(raw, failed_flag, pid2, cmdline2) matches Ok(second)
            &&& first.state == second.state
            &&& first.is_failed == second.is_failed
            &&& first.is_failed == failed_flag
        },
        status_of(raw, failed_flag, pid1, cmdline1) is Err ==> status_of(
            raw,
            failed_flag,
            pid1,
            cmdline1,
        ) == status_of(raw, failed_flag, pid2, cmdline2),
{
}

/// What every backend's status can tell.
pub trait BasicServiceStatus {
    /// Whether the service is running.
    fn is_running(&self) -> bool;

    /// Whether the service manager holds a failure record of the service.
    fn is_failed(&self) -> bool;

    /// The command line of the service's main process.
    fn get_cmdline(&self) -> &str;
}

impl ServiceStatus {
    /// Whether the service is active, in any substate.
    pub fn is_active(&self) -> (r: bool)
        ensures
            r == (self.state is Active),
    {
        match self.state {
            ServiceState::Active(_) => true,
            ServiceState::Inactive(_) => false,
        }
    }

    /// Whether the service is inactive, in any substate.
    pub fn is_inactive(&self) -> (r: bool)
        ensures
            r == (self.state is Inactive),
    {
        match self.state {
            ServiceState::Active(_) => false,
            ServiceState::Inactive(_) => true,
        }
    }
}

impl BasicServiceStatus for ServiceStatus {
    fn is_running(&self) -> (r: bool)
        ensures
            r == (self.state == ServiceState::Active(ActiveState::Running)),
    {
        match self.state {
            ServiceState::Active(ActiveState::Running) => true,
            _ => false,
        }
    }

    fn is_failed(&self) -> (r: bool)
        ensures
            r == self.is_failed,
    {
        self.is_failed
    }

    fn get_cmdline(&self) -> (s: &str)
        ensures
            s@ == self.cmdline@,
    {
        self.cmdline.as_str()
    }
}

} // verus!
