use launcher::state_channel::ExitReason;
use launcher::watchdog::{
    double_backoff, stop_cause, Decision, RestartPolicy, StopCause, INSTANCE_ALREADY_RUNNING_CODE,
    MAX_RESTARTS, NANOS_PER_SEC, RESTART_BACKOFF_BASE_SEC, RESTART_RESET_AFTER_SEC,
    UPDATE_IN_PROGRESS_CODE, USER_EXIT_CODE,
};

const SEC: u64 = NANOS_PER_SEC;

#[test]
fn constants_have_their_values() {
    assert_eq!(USER_EXIT_CODE, 10);
    assert_eq!(INSTANCE_ALREADY_RUNNING_CODE, 11);
    assert_eq!(UPDATE_IN_PROGRESS_CODE, 20);
    assert_eq!(MAX_RESTARTS, 3);
    assert_eq!(RESTART_BACKOFF_BASE_SEC, 1);
    assert_eq!(RESTART_RESET_AFTER_SEC, 60);
    assert_eq!(NANOS_PER_SEC, 1_000_000_000);
}

#[test]
fn new_policy_has_full_budget() {
    let policy = RestartPolicy::new(42);
    assert_eq!(policy, RestartPolicy { attempts: 0, backoff: 1, run_started_at: 42 });
}

#[test]
fn channel_reason_comes_before_exit_code() {
    let mut policy = RestartPolicy::new(0);
    let decision = policy.on_child_exit(10, Some(ExitReason::UpdateInProgress), SEC);
    assert_eq!(decision, Decision::Stop(StopCause::StateChannel(ExitReason::UpdateInProgress)));
    assert_eq!(policy, RestartPolicy::new(0));
    let decision = policy.on_child_exit(10, Some(ExitReason::UserExit), SEC);
    assert_eq!(decision, Decision::Stop(StopCause::StateChannel(ExitReason::UserExit)));
    let decision = policy.on_child_exit(1, Some(ExitReason::UserExit), SEC);
    assert_eq!(decision, Decision::Stop(StopCause::StateChannel(ExitReason::UserExit)));
}

#[test]
fn stop_codes_end_the_watch() {
    let mut policy = RestartPolicy::new(0);
    assert_eq!(policy.on_child_exit(10, None, SEC), Decision::Stop(StopCause::UserExit));
    assert_eq!(
        policy.on_child_exit(11, None, SEC),
        Decision::Stop(StopCause::InstanceAlreadyRunning)
    );
    assert_eq!(policy.on_child_exit(20, None, SEC), Decision::Stop(StopCause::UpdateInProgress));
    assert_eq!(policy, RestartPolicy::new(0));
}

#[test]
fn stop_codes_end_the_watch_even_after_a_long_run() {
    let mut policy = RestartPolicy { attempts: 2, backoff: 4, run_started_at: 0 };
    assert_eq!(policy.on_child_exit(10, None, 500 * SEC), Decision::Stop(StopCause::UserExit));
    assert_eq!(policy, RestartPolicy { attempts: 2, backoff: 4, run_started_at: 0 });
}

#[test]
fn other_codes_are_crashes() {
    for code in [0, 1, -1, 9, 12, 19, 21, 255, i32::MIN, i32::MAX] {
        let mut policy = RestartPolicy::new(0);
        assert_eq!(policy.on_child_exit(code, None, SEC), Decision::Restart { delay_secs: 1 });
        assert_eq!(stop_cause(None, code), None);
    }
}

#[test]
fn stop_cause_table() {
    assert_eq!(stop_cause(None, 10), Some(StopCause::UserExit));
    assert_eq!(stop_cause(None, 11), Some(StopCause::InstanceAlreadyRunning));
    assert_eq!(stop_cause(None, 20), Some(StopCause::UpdateInProgress));
    assert_eq!(
        stop_cause(Some(ExitReason::UserExit), 20),
        Some(StopCause::StateChannel(ExitReason::UserExit))
    );
    assert_eq!(
        stop_cause(Some(ExitReason::UpdateInProgress), 0),
        Some(StopCause::StateChannel(ExitReason::UpdateInProgress))
    );
}

#[test]
fn rapid_crashes_back_off_then_stop() {
    let mut policy = RestartPolicy::new(0);
    let mut clock = 0u64;
    let mut delays = Vec::new();
    let mut spawns = 0u32;
    loop {
        policy.mark_started(clock);
        spawns += 1;
        clock += 5 * SEC;
        match policy.on_child_exit(1, None, clock) {
            Decision::Restart { delay_secs } => {
                delays.push(delay_secs);
                clock += delay_secs * SEC;
            }
            Decision::Stop(cause) => {
                assert_eq!(cause, StopCause::RestartLimit);
                break;
            }
        }
        assert!(spawns < 100);
    }
    assert_eq!(delays, vec![1, 2, 4]);
    assert_eq!(spawns, 4);
    assert_eq!(policy.attempts, 3);
    assert_eq!(policy.backoff, 8);
}

#[test]
fn long_run_renews_the_budget() {
    let mut policy = RestartPolicy { attempts: 3, backoff: 8, run_started_at: 100 * SEC };
    let decision = policy.on_child_exit(1, None, 170 * SEC);
    assert_eq!(decision, Decision::Restart { delay_secs: 1 });
    assert_eq!(policy, RestartPolicy { attempts: 1, backoff: 2, run_started_at: 100 * SEC });
}

#[test]
fn run_of_sixty_seconds_is_not_long() {
    let mut policy = RestartPolicy { attempts: 3, backoff: 8, run_started_at: 0 };
    assert_eq!(policy.on_child_exit(1, None, 60 * SEC), Decision::Stop(StopCause::RestartLimit));
    let mut policy = RestartPolicy { attempts: 3, backoff: 8, run_started_at: 0 };
    assert_eq!(policy.on_child_exit(1, None, 60 * SEC + 1), Decision::Restart { delay_secs: 1 });
    let mut policy = RestartPolicy { attempts: 2, backoff: 4, run_started_at: 0 };
    assert_eq!(policy.on_child_exit(1, None, 60 * SEC), Decision::Restart { delay_secs: 4 });
    assert_eq!(policy, RestartPolicy { attempts: 3, backoff: 8, run_started_at: 0 });
}

#[test]
fn clock_that_runs_backwards_is_a_short_run() {
    let mut policy = RestartPolicy { attempts: 1, backoff: 2, run_started_at: 100 * SEC };
    assert_eq!(policy.on_child_exit(1, None, 0), Decision::Restart { delay_secs: 2 });
    assert_eq!(policy.attempts, 2);
}

#[test]
fn backoff_doubles_and_saturates() {
    assert_eq!(double_backoff(1), 2);
    assert_eq!(double_backoff(2), 4);
    assert_eq!(double_backoff(4), 8);
    assert_eq!(double_backoff(0), 1);
    assert_eq!(double_backoff(u64::MAX / 2), u64::MAX - 1);
    assert_eq!(double_backoff(u64::MAX / 2 + 1), u64::MAX);
    assert_eq!(double_backoff(u64::MAX), u64::MAX);
}

#[test]
fn mark_started_changes_only_the_start() {
    let mut policy = RestartPolicy { attempts: 2, backoff: 4, run_started_at: 1 };
    policy.mark_started(99);
    assert_eq!(policy, RestartPolicy { attempts: 2, backoff: 4, run_started_at: 99 });
}
