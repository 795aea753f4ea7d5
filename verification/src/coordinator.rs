//! The instance coordinator: before anything is spawned, it finds out whether
//! the managed application already runs, and if it does, hands the focus to
//! the running instance.
//!
//! The checks come in a fixed order and stop at the first positive signal:
//! the named mutex of the operating system (left out in multi-instance mode),
//! then the coordination port.  A running instance is asked over HTTP to show
//! itself; where that fails, its window is raised; where that fails too, the
//! user is told.  Probing, sending and raising are the caller's work: the
//! coordinator is told what they gave and answers with what to do next.

use vstd::prelude::*;
use crate::status::AppStatus;

verus! {

/// What the coordinator finds.
#[derive(Clone, Copy, Debug, PartialEq, Eq, Structural)]
pub enum InstanceState {
    /// No instance runs: the application may be launched.
    Clear,
    /// An instance runs already.
    AlreadyRunning,
    /// A stranger holds the coordination port.
    Conflict,
}

/// Where the coordinator stands.
#[derive(Clone, Copy, Debug, PartialEq, Eq, Structural)]
pub enum Stage {
    /// Nothing has been checked yet.
    Idle,
    /// The caller looks for the named mutex.
    ProbingMutex,
    /// The caller probes the coordination port.
    ProbingPort,
    /// An instance runs; the caller sends it the activation request.
    Activating,
    /// An instance runs; the caller tries to raise its window.
    Raising,
    /// The coordinator is done, with this finding.
    Settled(InstanceState),
}

/// What the caller reports to the coordinator.
#[derive(Clone, Copy, Debug, PartialEq, Eq, Structural)]
pub enum Report {
    /// The coordinator is asked to begin.  In multi-instance mode the mutex
    /// is not looked at.
    Begin { multi_instance: bool },
    /// The named mutex was looked for: `held` says whether it exists.
    MutexProbed { held: bool },
    /// The coordination port was probed, with this result.
    PortProbed { status: AppStatus },
    /// The activation request was tried: `sent` says whether it went out.
    ActivateTried { sent: bool },
    /// Raising the window was tried: `raised` says whether a window was found
    /// and brought to the front.
    RaiseTried { raised: bool },
}

/// What the coordinator asks of the caller.
#[derive(Clone, Copy, Debug, PartialEq, Eq, Structural)]
pub enum Task {
    /// Try to open the named mutex without creating it, then report
    /// `MutexProbed`.
    ProbeMutex,
    /// Probe the coordination port, then report `PortProbed`.
    ProbePort,
    /// Send the activation request, then report `ActivateTried`.
    NotifyActivate,
    /// Bring the running instance's window to the front, then report
    /// `RaiseTried`.
    RaiseWindow,
    /// No instance runs: go on and launch the application.
    Launch,
    /// The running instance has the focus: leave quietly.
    Leave,
    /// The running instance could not be given the focus: tell the user that
    /// the application already runs, then leave.
    TellAlreadyRunning,
    /// A stranger holds the port: tell the user about the conflict and fail
    /// the launch.
    ReportConflict,
    /// The report does not belong to the present stage: do nothing.
    Ignore,
}

/// The finding that a probe of the coordination port leads to.
pub open spec fn state_of_status(status: AppStatus) -> InstanceState {
    match status {
        AppStatus::NotRunning => InstanceState::Clear,
        AppStatus::Running => InstanceState::AlreadyRunning,
        AppStatus::PortInUse => InstanceState::Conflict,
    }
}

/// The coordinator after `report`, and what it asks of the caller.
pub open spec fn advance(stage: Stage, report: Report) -> (Stage, Task) {
    match (stage, report) {
        (Stage::Idle, Report::Begin { multi_instance }) => if multi_instance {
            (Stage::ProbingPort, Task::ProbePort)
        } else {
            (Stage::ProbingMutex, Task::ProbeMutex)
        },
        (Stage::ProbingMutex, Report::MutexProbed { held }) => if held {
            (Stage::Activating, Task::NotifyActivate)
        } else {
            (Stage::ProbingPort, Task::ProbePort)
        },
        (Stage::ProbingPort, Report::PortProbed { status }) => match status {
            AppStatus::NotRunning => (Stage::Settled(InstanceState::Clear), Task::Launch),
            AppStatus::Running => (Stage::Activating, Task::NotifyActivate),
            AppStatus::PortInUse => (
                Stage::Settled(InstanceState::Conflict),
                Task::ReportConflict,
            ),
        },
        (Stage::Activating, Report::ActivateTried { sent }) => if sent {
            (Stage::Settled(InstanceState::AlreadyRunning), Task::Leave)
        } else {
            (Stage::Raising, Task::RaiseWindow)
        },
        (Stage::Raising, Report::RaiseTried { raised }) => if raised {
            (Stage::Settled(InstanceState::AlreadyRunning), Task::Leave)
        } else {
            (Stage::Settled(InstanceState::AlreadyRunning), Task::TellAlreadyRunning)
        },
        _ => (stage, Task::Ignore),
    }
}

impl Stage {
    /// The finding, as far as it is known at this stage.
    pub open spec fn finding(self) -> Option<InstanceState> {
        match self {
            Stage::Idle => None,
            Stage::ProbingMutex => None,
            Stage::ProbingPort => None,
            Stage::Activating => Some(InstanceState::AlreadyRunning),
            Stage::Raising => Some(InstanceState::AlreadyRunning),
            Stage::Settled(state) => Some(state),
        }
    }

    /// The finding, as far as it is known at this stage.
    pub fn determined_state(&self) -> (r: Option<InstanceState>)
        ensures
            r == self.finding(),
    {
        match self {
            Stage::Idle => None,
            Stage::ProbingMutex => None,
            Stage::ProbingPort => None,
            Stage::Activating => Some(InstanceState::AlreadyRunning),
            Stage::Raising => Some(InstanceState::AlreadyRunning),
            Stage::Settled(state) => Some(*state),
        }
    }
}

/// The coordinator.
#[derive(Clone, Copy, Debug, PartialEq, Eq, Structural)]
pub struct Coordinator {
    pub stage: Stage,
}

impl Coordinator {
    /// A coordinator that has checked nothing yet.
    pub fn new() -> (r: Coordinator)
        ensures
            r.stage == Stage::Idle,
    {
        Coordinator { stage: Stage::Idle }
    }

    /// Takes in `report` and says what the caller is to do next.
    pub fn step(&mut self, report: Report) -> (r: Task)
        ensures
            (final(self).stage, r) == advance(old(self).stage, report),
            r is Launch ==> final(self).stage == Stage::Settled(InstanceState::Clear),
            r is ReportConflict ==> final(self).stage == Stage::Settled(InstanceState::Conflict),
            r is Leave || r is TellAlreadyRunning ==> final(self).stage == Stage::Settled(
                InstanceState::AlreadyRunning,
            ),
            old(self).stage is Settled ==> r is Ignore && final(self).stage == old(self).stage,
    {
        let (stage, task) = match (self.stage, report) {
            (Stage::Idle, Report::Begin { multi_instance }) => if multi_instance {
                (Stage::ProbingPort, Task::ProbePort)
            } else {
                (Stage::ProbingMutex, Task::ProbeMutex)
            },
            (Stage::ProbingMutex, Report::MutexProbed { held }) => if held {
                (Stage::Activating, Task::NotifyActivate)
            } else {
                (Stage::ProbingPort, Task::ProbePort)
            },
            (Stage::ProbingPort, Report::PortProbed { status }) => match determine_state(status) {
                InstanceState::Clear => (Stage::Settled(InstanceState::Clear), Task::Launch),
                InstanceState::AlreadyRunning => (Stage::Activating, Task::NotifyActivate),
                InstanceState::Conflict => (
                    Stage::Settled(InstanceState::Conflict),
                    Task::ReportConflict,
                ),
            },
            (Stage::Activating, Report::ActivateTried { sent }) => if sent {
                (Stage::Settled(InstanceState::AlreadyRunning), Task::Leave)
            } else {
                (Stage::Raising, Task::RaiseWindow)
            },
            (Stage::Raising, Report::RaiseTried { raised }) => if raised {
                (Stage::Settled(InstanceState::AlreadyRunning), Task::Leave)
            } else {
                (Stage::Settled(InstanceState::AlreadyRunning), Task::TellAlreadyRunning)
            },
            (stage, _) => (stage, Task::Ignore),
        };
        self.stage = stage;
        task
    }
}

/// The finding that the result `status` of a probe of the coordination port
/// leads to: nothing there clears the launch, the managed application there
/// means that it runs already, and a stranger there is a conflict.
pub fn determine_state(status: AppStatus) -> (r: InstanceState)
    ensures
        r == state_of_status(status),
{
    match status {
        AppStatus::NotRunning => InstanceState::Clear,
        AppStatus::Running => InstanceState::AlreadyRunning,
        AppStatus::PortInUse => InstanceState::Conflict,
    }
}

/// The stage that the reports `reports` lead to, taken in from the start one
/// after the other.
pub open spec fn stage_after(reports: Seq<Report>) -> Stage
    decreases reports.len(),
{
    if reports.len() == 0 {
        Stage::Idle
    } else {
        advance(stage_after(reports.drop_last()), reports.last()).0
    }
}

/// What the coordinator answers to the last of `reports`.
pub open spec fn task_after(reports: Seq<Report>) -> Task
    recommends
        reports.len() > 0,
{
    advance(stage_after(reports.drop_last()), reports.last()).1
}

/// Whether the coordinator, over `reports`, was begun in multi-instance
/// mode.
pub open spec fn begun_multi_instance(reports: Seq<Report>) -> bool
    decreases reports.len(),
{
    if reports.len() == 0 {
        false
    } else if stage_after(reports.drop_last()) is Idle {
        reports.last() matches Report::Begin { multi_instance } && multi_instance
    } else {
        begun_multi_instance(reports.drop_last())
    }
}

/// Whether some report within `reports` was accepted as the result of a
/// probe of the coordination port, and said `status`.
pub open spec fn port_said(reports: Seq<Report>, status: AppStatus) -> bool
    decreases reports.len(),
{
    if reports.len() == 0 {
        false
    } else {
        ||| port_said(reports.drop_last(), status)
        ||| (stage_after(reports.drop_last()) is ProbingPort && reports.last()
            == Report::PortProbed { status })
    }
}

/// The order of the checks.  Whatever is reported, and in whatever order:
/// in multi-instance mode the mutex is never looked for; the launch is
/// cleared only after the port was found free; a conflict is found only
/// after a stranger was found on the port; and what is settled stays
/// settled.
pub proof fn lemma_checks_in_order(reports: Seq<Report>)
    ensures
        begun_multi_instance(reports) ==> !(stage_after(reports) is ProbingMutex),
        reports.len() > 0 && begun_multi_instance(reports.drop_last()) ==> !(task_after(reports)
            is ProbeMutex),
        stage_after(reports) == Stage::Settled(InstanceState::Clear) ==> port_said(
            reports,
            AppStatus::NotRunning,
        ),
        stage_after(reports) == Stage::Settled(InstanceState::Conflict) ==> port_said(
            reports,
            AppStatus::PortInUse,
        ),
        reports.len() > 0 && stage_after(reports.drop_last()) is Settled ==> stage_after(reports)
            == stage_after(reports.drop_last()) && task_after(reports) is Ignore,
    decreases reports.len(),
{
    if reports.len() > 0 {
        lemma_checks_in_order(reports.drop_last());
        if reports.len() > 1 {
            lemma_checks_in_order(reports.drop_last().drop_last());
        }
    }
}

} // verus!
