use launcher::coordinator::{determine_state, Coordinator, InstanceState, Report, Stage, Task};
use launcher::status::AppStatus;

#[test]
fn status_maps_to_state() {
    assert_eq!(determine_state(AppStatus::NotRunning), InstanceState::Clear);
    assert_eq!(determine_state(AppStatus::Running), InstanceState::AlreadyRunning);
    assert_eq!(determine_state(AppStatus::PortInUse), InstanceState::Conflict);
}

#[test]
fn nothing_running_clears_the_launch() {
    let mut c = Coordinator::new();
    assert_eq!(c.stage.determined_state(), None);
    assert_eq!(c.step(Report::Begin { multi_instance: false }), Task::ProbeMutex);
    assert_eq!(c.stage, Stage::ProbingMutex);
    assert_eq!(c.step(Report::MutexProbed { held: false }), Task::ProbePort);
    assert_eq!(c.stage, Stage::ProbingPort);
    assert_eq!(c.stage.determined_state(), None);
    assert_eq!(c.step(Report::PortProbed { status: AppStatus::NotRunning }), Task::Launch);
    assert_eq!(c.stage, Stage::Settled(InstanceState::Clear));
    assert_eq!(c.stage.determined_state(), Some(InstanceState::Clear));
}

#[test]
fn held_mutex_short_circuits() {
    let mut c = Coordinator::new();
    c.step(Report::Begin { multi_instance: false });
    assert_eq!(c.step(Report::MutexProbed { held: true }), Task::NotifyActivate);
    assert_eq!(c.stage, Stage::Activating);
    assert_eq!(c.stage.determined_state(), Some(InstanceState::AlreadyRunning));
    assert_eq!(c.step(Report::ActivateTried { sent: true }), Task::Leave);
    assert_eq!(c.stage, Stage::Settled(InstanceState::AlreadyRunning));
}

#[test]
fn multi_instance_mode_skips_the_mutex() {
    let mut c = Coordinator::new();
    assert_eq!(c.step(Report::Begin { multi_instance: true }), Task::ProbePort);
    assert_eq!(c.step(Report::MutexProbed { held: true }), Task::Ignore);
    assert_eq!(c.stage, Stage::ProbingPort);
}

#[test]
fn stranger_on_port_is_a_conflict() {
    let mut c = Coordinator::new();
    c.step(Report::Begin { multi_instance: false });
    c.step(Report::MutexProbed { held: false });
    assert_eq!(c.step(Report::PortProbed { status: AppStatus::PortInUse }), Task::ReportConflict);
    assert_eq!(c.stage, Stage::Settled(InstanceState::Conflict));
}

#[test]
fn activation_falls_back_to_window_then_notice() {
    let mut c = Coordinator::new();
    c.step(Report::Begin { multi_instance: true });
    assert_eq!(c.step(Report::PortProbed { status: AppStatus::Running }), Task::NotifyActivate);
    assert_eq!(c.step(Report::ActivateTried { sent: false }), Task::RaiseWindow);
    assert_eq!(c.stage, Stage::Raising);
    assert_eq!(c.stage.determined_state(), Some(InstanceState::AlreadyRunning));
    assert_eq!(c.step(Report::RaiseTried { raised: false }), Task::TellAlreadyRunning);
    assert_eq!(c.stage, Stage::Settled(InstanceState::AlreadyRunning));
}

#[test]
fn raised_window_needs_no_notice() {
    let mut c = Coordinator::new();
    c.step(Report::Begin { multi_instance: true });
    c.step(Report::PortProbed { status: AppStatus::Running });
    c.step(Report::ActivateTried { sent: false });
    assert_eq!(c.step(Report::RaiseTried { raised: true }), Task::Leave);
    assert_eq!(c.stage, Stage::Settled(InstanceState::AlreadyRunning));
}

#[test]
fn settled_coordinator_ignores_everything() {
    let mut c = Coordinator::new();
    c.step(Report::Begin { multi_instance: true });
    c.step(Report::PortProbed { status: AppStatus::NotRunning });
    for report in [
        Report::Begin { multi_instance: false },
        Report::MutexProbed { held: true },
        Report::PortProbed { status: AppStatus::PortInUse },
        Report::ActivateTried { sent: true },
        Report::RaiseTried { raised: true },
    ] {
        assert_eq!(c.step(report), Task::Ignore);
        assert_eq!(c.stage, Stage::Settled(InstanceState::Clear));
    }
}

#[test]
fn coordinator_reports_out_of_turn_are_ignored() {
    let mut c = Coordinator::new();
    assert_eq!(c.step(Report::PortProbed { status: AppStatus::NotRunning }), Task::Ignore);
    assert_eq!(c.step(Report::MutexProbed { held: true }), Task::Ignore);
    assert_eq!(c.stage, Stage::Idle);
    c.step(Report::Begin { multi_instance: false });
    assert_eq!(c.step(Report::PortProbed { status: AppStatus::NotRunning }), Task::Ignore);
    assert_eq!(c.step(Report::Begin { multi_instance: true }), Task::Ignore);
    assert_eq!(c.stage, Stage::ProbingMutex);
}
