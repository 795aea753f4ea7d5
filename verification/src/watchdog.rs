//! The restart policy of the watchdog: what to do after the managed
//! application has exited.
//!
//! A voluntary exit, announced through the launcher state channel or through
//! the exit code, ends the watch.  Any other exit is a crash and is answered
//! by a restart after a growing pause, at most `MAX_RESTARTS` times in a row.
//! A run that lasted longer than `RESTART_RESET_AFTER_SEC` seconds counts as
//! healthy: the crash that ends it starts with a fresh budget.
//!
//! Times are readings of a monotonic clock in nanoseconds; the caller picks
//! the clock's origin.

use vstd::prelude::*;
use crate::state_channel::ExitReason;

verus! {

/// The exit code by which the application says that the user closed it.
pub const USER_EXIT_CODE: i32 = 10;

/// The exit code by which the application says that it found another
/// instance of itself running.
pub const INSTANCE_ALREADY_RUNNING_CODE: i32 = 11;

/// The exit code by which the application says that an update is replacing
/// it.
pub const UPDATE_IN_PROGRESS_CODE: i32 = 20;

/// How many restarts in a row the watchdog grants.
pub const MAX_RESTARTS: u32 = 3;

/// The pause before the first restart, in seconds.
pub const RESTART_BACKOFF_BASE_SEC: u64 = 1;

/// A run longer than this many seconds renews the restart budget.
pub const RESTART_RESET_AFTER_SEC: u64 = 60;

/// The nanoseconds in a second.
pub const NANOS_PER_SEC: u64 = 1_000_000_000;

/// Why the watchdog stops restarting.
#[derive(Clone, Copy, Debug, PartialEq, Eq, Structural)]
pub enum StopCause {
    /// The launcher state channel held a valid record with this reason.
    StateChannel(ExitReason),
    /// The exit code was `USER_EXIT_CODE`.
    UserExit,
    /// The exit code was `INSTANCE_ALREADY_RUNNING_CODE`.
    InstanceAlreadyRunning,
    /// The exit code was `UPDATE_IN_PROGRESS_CODE`.
    UpdateInProgress,
    /// The application crashed again after `MAX_RESTARTS` restarts in a row.
    RestartLimit,
}

/// What the watchdog does after an exit.
#[derive(Clone, Copy, Debug, PartialEq, Eq, Structural)]
pub enum Decision {
    /// Stop: the application is not started again.
    Stop(StopCause),
    /// Wait for `delay_secs` seconds, then start the application again.
    Restart { delay_secs: u64 },
}

/// The state of the restart policy.
#[derive(Clone, Copy, Debug, PartialEq, Eq, Structural)]
pub struct RestartPolicy {
    /// The restarts granted since the budget was last renewed.
    pub attempts: u32,
    /// The pause before the next restart, in seconds.
    pub backoff: u64,
    /// When the current run started, in nanoseconds.
    pub run_started_at: u64,
}

/// The cause for which an exit ends the watch, if it does.  The state channel
/// is heard before the exit code.
pub open spec fn voluntary_stop(channel: Option<ExitReason>, exit_code: i32) -> Option<StopCause> {
    match channel {
        Some(reason) => Some(StopCause::StateChannel(reason)),
        None => if exit_code == USER_EXIT_CODE {
            Some(StopCause::UserExit)
        } else if exit_code == INSTANCE_ALREADY_RUNNING_CODE {
            Some(StopCause::InstanceAlreadyRunning)
        } else if exit_code == UPDATE_IN_PROGRESS_CODE {
            Some(StopCause::UpdateInProgress)
        } else {
            None
        },
    }
}

/// Whether a run from `started` to `ended` lasted longer than
/// `RESTART_RESET_AFTER_SEC` seconds.
pub open spec fn ran_long(started: u64, ended: u64) -> bool {
    ended - started > RESTART_RESET_AFTER_SEC * NANOS_PER_SEC
}

/// The pause that follows a pause of `backoff` seconds: twice as long, held
/// at `u64::MAX`, and never under a second.
pub open spec fn next_backoff(backoff: u64) -> u64 {
    if backoff == 0 {
        1
    } else if 2 * backoff > u64::MAX {
        u64::MAX
    } else {
        (2 * backoff) as u64
    }
}

impl RestartPolicy {
    /// The policy's invariant: the restart budget is never overdrawn, and a
    /// pause is never shorter than the base.
    pub open spec fn wf(self) -> bool {
        &&& self.attempts <= MAX_RESTARTS
        &&& self.backoff >= RESTART_BACKOFF_BASE_SEC
    }

    /// The policy with a full budget.
    pub open spec fn fresh(run_started_at: u64) -> RestartPolicy {
        RestartPolicy { attempts: 0, backoff: RESTART_BACKOFF_BASE_SEC, run_started_at }
    }

    /// The policy as the crash at time `now` finds it: with a full budget
    /// where the run was long, unchanged where it was not.
    pub open spec fn renewed(self, now: u64) -> RestartPolicy {
        if ran_long(self.run_started_at, now) {
            RestartPolicy::fresh(self.run_started_at)
        } else {
            self
        }
    }

    /// What follows an exit with `exit_code` at time `now`, the state channel
    /// having given `channel`: the decision and the policy after it.
    pub open spec fn decide(self, exit_code: i32, channel: Option<ExitReason>, now: u64) -> (
        Decision,
        RestartPolicy,
    ) {
        match voluntary_stop(channel, exit_code) {
            Some(cause) => (Decision::Stop(cause), self),
            None => {
                let policy = self.renewed(now);
                if policy.attempts >= MAX_RESTARTS {
                    (Decision::Stop(StopCause::RestartLimit), policy)
                } else {
                    (
                        Decision::Restart { delay_secs: policy.backoff },
                        RestartPolicy {
                            attempts: (policy.attempts + 1) as u32,
                            backoff: next_backoff(policy.backoff),
                            run_started_at: policy.run_started_at,
                        },
                    )
                }
            },
        }
    }

    /// A policy with a full budget for a run that starts at `now`.
    pub fn new(now: u64) -> (r: RestartPolicy)
        ensures
            r == RestartPolicy::fresh(now),
            r.wf(),
    {
        RestartPolicy { attempts: 0, backoff: RESTART_BACKOFF_BASE_SEC, run_started_at: now }
    }

    /// Notes that a run has started at time `now`.
    pub fn mark_started(&mut self, now: u64)
        ensures
            *final(self) == (RestartPolicy { run_started_at: now, ..*old(self) }),
            old(self).wf() ==> final(self).wf(),
    {
        self.run_started_at = now;
    }

    /// Decides what follows an exit with `exit_code` at time `now`, the state
    /// channel having given `channel`, and updates the policy.
    pub fn on_child_exit(&mut self, exit_code: i32, channel: Option<ExitReason>, now: u64) -> (r:
        Decision)
        ensures
            (r, *final(self)) == old(self).decide(exit_code, channel, now),
            old(self).wf() ==> final(self).wf(),
            r matches Decision::Restart { delay_secs } ==> {
                &&& channel is None
                &&& exit_code != USER_EXIT_CODE
                &&& exit_code != INSTANCE_ALREADY_RUNNING_CODE
                &&& exit_code != UPDATE_IN_PROGRESS_CODE
                &&& final(self).attempts >= 1
            },
    {
        match stop_cause(channel, exit_code) {
            Some(cause) => { return Decision::Stop(cause); },
            None => {},
        }
        let long_run = now > self.run_started_at && now - self.run_started_at
            > RESTART_RESET_AFTER_SEC * NANOS_PER_SEC;
        if long_run {
            self.attempts = 0;
            self.backoff = RESTART_BACKOFF_BASE_SEC;
        }
        if self.attempts >= MAX_RESTARTS {
            return Decision::Stop(StopCause::RestartLimit);
        }
        let delay_secs: u64 = self.backoff;
        self.attempts = self.attempts + 1;
        self.backoff = double_backoff(delay_secs);
        Decision::Restart { delay_secs }
    }
}

/// The cause for which an exit ends the watch, if it does.
pub fn stop_cause(channel: Option<ExitReason>, exit_code: i32) -> (r: Option<StopCause>)
    ensures
        r == voluntary_stop(channel, exit_code),
        channel matches Some(reason) ==> r == Some(StopCause::StateChannel(reason)),
{
    match channel {
        Some(reason) => Some(StopCause::StateChannel(reason)),
        None => if exit_code == USER_EXIT_CODE {
            Some(StopCause::UserExit)
        } else if exit_code == INSTANCE_ALREADY_RUNNING_CODE {
            Some(StopCause::InstanceAlreadyRunning)
        } else if exit_code == UPDATE_IN_PROGRESS_CODE {
            Some(StopCause::UpdateInProgress)
        } else {
            None
        },
    }
}

/// The pause that follows a pause of `backoff` seconds.
pub fn double_backoff(backoff: u64) -> (r: u64)
    ensures
        r == next_backoff(backoff),
        r >= 1,
        r >= backoff,
{
    match backoff.checked_mul(2) {
        None => u64::MAX,
        Some(doubled) => if doubled == 0 {
            1
        } else {
            doubled
        },
    }
}

/// The state channel is heard before the exit code: where the channel gave
/// a reason, that reason is the cause of the stop, whatever the exit code
/// says, and the policy is left as it was.
pub proof fn lemma_channel_precedes_exit_code(
    policy: RestartPolicy,
    exit_code: i32,
    reason: ExitReason,
    now: u64,
)
    ensures
        policy.decide(exit_code, Some(reason), now) == (
            Decision::Stop(StopCause::StateChannel(reason)),
            policy,
        ),
{
}

/// Each of the three exit codes of a voluntary exit ends the watch, and no
/// other code does.
pub proof fn lemma_stop_codes(exit_code: i32)
    ensures
        voluntary_stop(None, exit_code) is Some <==> exit_code == USER_EXIT_CODE || exit_code
            == INSTANCE_ALREADY_RUNNING_CODE || exit_code == UPDATE_IN_PROGRESS_CODE,
{
}

/// Crashes in quick succession: starting from a full budget, the first three
/// are answered by restarts after pauses of 1, 2 and 4 seconds, and the
/// fourth ends the watch.  Run `i` starts at `started[i]` and crashes with
/// `codes[i]` at `ended[i]`.
pub proof fn lemma_rapid_crashes(codes: Seq<i32>, started: Seq<u64>, ended: Seq<u64>)
    requires
        codes.len() == 4,
        started.len() == 4,
        ended.len() == 4,
        forall|i: int| 0 <= i < 4 ==> voluntary_stop(None, codes[i]) is None,
        forall|i: int| 0 <= i < 4 ==> !ran_long(started[i], ended[i]),
    ensures
        ({
            let p0 = RestartPolicy::fresh(started[0]);
            let (d1, p1) = p0.decide(codes[0], None, ended[0]);
            let (d2, p2) = (RestartPolicy { run_started_at: started[1], ..p1 }).decide(
                codes[1],
                None,
                ended[1],
            );
            let (d3, p3) = (RestartPolicy { run_started_at: started[2], ..p2 }).decide(
                codes[2],
                None,
                ended[2],
            );
            let (d4, p4) = (RestartPolicy { run_started_at: started[3], ..p3 }).decide(
                codes[3],
                None,
                ended[3],
            );
            &&& d1 == Decision::Restart { delay_secs: 1 }
            &&& d2 == Decision::Restart { delay_secs: 2 }
            &&& d3 == Decision::Restart { delay_secs: 4 }
            &&& d4 == Decision::Stop(StopCause::RestartLimit)
        }),
{
}

/// A crash after a long run is judged with a full budget: whatever the
/// policy held, it is answered as the first crash is, by a restart after the
/// base pause.
pub proof fn lemma_long_run_renews(policy: RestartPolicy, exit_code: i32, now: u64)
    requires
        ran_long(policy.run_started_at, now),
        voluntary_stop(None, exit_code) is None,
    ensures
        policy.renewed(now).attempts == 0,
        policy.renewed(now).backoff == RESTART_BACKOFF_BASE_SEC,
        policy.decide(exit_code, None, now) == RestartPolicy::fresh(policy.run_started_at).decide(
            exit_code,
            None,
            now,
        ),
        policy.decide(exit_code, None, now).0 == (Decision::Restart {
            delay_secs: RESTART_BACKOFF_BASE_SEC,
        }),
        policy.decide(exit_code, None, now).1.attempts == 1,
{
}

/// The pauses never shrink, and they grow for as long as they can be
/// doubled.
pub proof fn lemma_backoff_grows(backoff: u64)
    ensures
        next_backoff(backoff) >= backoff,
        next_backoff(backoff) >= RESTART_BACKOFF_BASE_SEC,
        0 < backoff && 2 * backoff <= u64::MAX ==> next_backoff(backoff) == 2 * backoff,
{
}

/// The policy's invariant holds of a full budget and is kept by every
/// decision.
pub proof fn lemma_decide_keeps_wf(
    policy: RestartPolicy,
    exit_code: i32,
    channel: Option<ExitReason>,
    now: u64,
)
    requires
        policy.wf(),
    ensures
        policy.decide(exit_code, channel, now).1.wf(),
        RestartPolicy::fresh(now).wf(),
{
}

} // verus!
