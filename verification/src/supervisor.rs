//! The supervisor's life cycle as a state machine.
//!
//! The supervisor owns one child process at a time.  It spawns the managed
//! application, waits for it to exit, reads and clears the launcher state
//! channel, and lets the restart policy decide between a restart and the end
//! of the watch.  Spawning, waiting, reading and sleeping are the caller's
//! work: the machine is told what happened and answers with what to do next.
//!
//! ```text
//! Idle -> Spawning -> Running -> Exited -> Restarting -> Spawning -> ...
//!             |           |         |
//!             v           v         v
//!          Stopped     Stopped   Stopped
//! ```

use vstd::prelude::*;
use crate::state_channel::ExitReason;
use crate::watchdog::{Decision, MAX_RESTARTS, RestartPolicy, StopCause, ran_long};

verus! {

/// Where the supervisor stands.
#[derive(Clone, Copy, Debug, PartialEq, Eq, Structural)]
pub enum Phase {
    /// Nothing has been started yet.
    Idle,
    /// The caller is spawning the child.
    Spawning,
    /// The child runs and the caller waits for it.
    Running,
    /// The child has exited with `exit_code` at time `exited_at`; the caller
    /// reads the launcher state channel.
    Exited { exit_code: i32, exited_at: u64 },
    /// The caller sleeps through the pause before a restart.
    Restarting,
    /// The watch is over.
    Stopped,
}

/// What the caller reports to the supervisor.
#[derive(Clone, Copy, Debug, PartialEq, Eq, Structural)]
pub enum Event {
    /// The supervisor is asked to begin.
    Start,
    /// The child was spawned at time `now`.
    Spawned { now: u64 },
    /// The child could not be spawned.
    SpawnFailed,
    /// Waiting for the child returned its `exit_code` at time `now`.
    ChildExited { exit_code: i32, now: u64 },
    /// Waiting for the child failed.
    WaitFailed,
    /// The launcher state channel was read and cleared, and gave `reason`.
    ChannelRead { reason: Option<ExitReason> },
    /// The pause before the restart is over.
    BackoffElapsed,
}

/// A failure that ends the watch and is shown to the user.
#[derive(Clone, Copy, Debug, PartialEq, Eq, Structural)]
pub enum Failure {
    /// The child could not be spawned.
    Spawn,
    /// Waiting for the child failed.
    Wait,
}

/// What the supervisor asks of the caller.
#[derive(Clone, Copy, Debug, PartialEq, Eq, Structural)]
pub enum Command {
    /// Spawn the child, then report `Spawned` or `SpawnFailed`.
    Spawn,
    /// Wait for the child, then report `ChildExited` or `WaitFailed`.
    Wait,
    /// Read and clear the launcher state channel, then report `ChannelRead`.
    ReadChannel,
    /// Sleep for `secs` seconds, then report `BackoffElapsed`.
    Sleep { secs: u64 },
    /// End the watch quietly for this cause.
    Stop(StopCause),
    /// End the watch and tell the user about this failure.
    Fail(Failure),
    /// The event does not belong to the present phase: do nothing.
    Ignore,
}

/// The supervisor: its phase and its restart policy.
#[derive(Clone, Copy, Debug, PartialEq, Eq, Structural)]
pub struct Supervisor {
    pub phase: Phase,
    pub policy: RestartPolicy,
}

impl Supervisor {
    /// The supervisor before anything has happened.
    pub open spec fn initial() -> Supervisor {
        Supervisor { phase: Phase::Idle, policy: RestartPolicy::fresh(0) }
    }

    /// Whether a child of this supervisor may be alive: it is being spawned
    /// or it runs.
    pub open spec fn holds_child(self) -> bool {
        self.phase is Spawning || self.phase is Running
    }

    /// The supervisor after `event`, and what it asks of the caller.
    pub open spec fn next(self, event: Event) -> (Supervisor, Command) {
        match (self.phase, event) {
            (Phase::Idle, Event::Start) => (
                Supervisor { phase: Phase::Spawning, ..self },
                Command::Spawn,
            ),
            (Phase::Spawning, Event::Spawned { now }) => (
                Supervisor {
                    phase: Phase::Running,
                    policy: RestartPolicy { run_started_at: now, ..self.policy },
                },
                Command::Wait,
            ),
            (Phase::Spawning, Event::SpawnFailed) => (
                Supervisor { phase: Phase::Stopped, ..self },
                Command::Fail(Failure::Spawn),
            ),
            (Phase::Running, Event::ChildExited { exit_code, now }) => (
                Supervisor { phase: Phase::Exited { exit_code, exited_at: now }, ..self },
                Command::ReadChannel,
            ),
            (Phase::Running, Event::WaitFailed) => (
                Supervisor { phase: Phase::Stopped, ..self },
                Command::Fail(Failure::Wait),
            ),
            (Phase::Exited { exit_code, exited_at }, Event::ChannelRead { reason }) => {
                let (decision, policy) = self.policy.decide(exit_code, reason, exited_at);
                match decision {
                    Decision::Stop(cause) => (
                        Supervisor { phase: Phase::Stopped, policy },
                        Command::Stop(cause),
                    ),
                    Decision::Restart { delay_secs } => (
                        Supervisor { phase: Phase::Restarting, policy },
                        Command::Sleep { secs: delay_secs },
                    ),
                }
            },
            (Phase::Restarting, Event::BackoffElapsed) => (
                Supervisor { phase: Phase::Spawning, ..self },
                Command::Spawn,
            ),
            _ => (self, Command::Ignore),
        }
    }

    /// A supervisor that has not started anything.
    pub fn new() -> (r: Supervisor)
        ensures
            r == Supervisor::initial(),
            r.policy.wf(),
            !r.holds_child(),
    {
        Supervisor { phase: Phase::Idle, policy: RestartPolicy::new(0) }
    }

    /// Takes in `event` and says what the caller is to do next.
    pub fn step(&mut self, event: Event) -> (r: Command)
        ensures
            (*final(self), r) == old(self).next(event),
            old(self).policy.wf() ==> final(self).policy.wf(),
            r is Spawn ==> !old(self).holds_child() && final(self).phase is Spawning,
            old(self).phase is Stopped ==> r is Ignore && *final(self) == *old(self),
    {
        match (self.phase, event) {
            (Phase::Idle, Event::Start) => {
                self.phase = Phase::Spawning;
                Command::Spawn
            },
            (Phase::Spawning, Event::Spawned { now }) => {
                self.phase = Phase::Running;
                self.policy.mark_started(now);
                Command::Wait
            },
            (Phase::Spawning, Event::SpawnFailed) => {
                self.phase = Phase::Stopped;
                Command::Fail(Failure::Spawn)
            },
            (Phase::Running, Event::ChildExited { exit_code, now }) => {
                self.phase = Phase::Exited { exit_code, exited_at: now };
                Command::ReadChannel
            },
            (Phase::Running, Event::WaitFailed) => {
                self.phase = Phase::Stopped;
                Command::Fail(Failure::Wait)
            },
            (Phase::Exited { exit_code, exited_at }, Event::ChannelRead { reason }) => {
                match self.policy.on_child_exit(exit_code, reason, exited_at) {
                    Decision::Stop(cause) => {
                        self.phase = Phase::Stopped;
                        Command::Stop(cause)
                    },
                    Decision::Restart { delay_secs } => {
                        self.phase = Phase::Restarting;
                        Command::Sleep { secs: delay_secs }
                    },
                }
            },
            (Phase::Restarting, Event::BackoffElapsed) => {
                self.phase = Phase::Spawning;
                Command::Spawn
            },
            _ => Command::Ignore,
        }
    }
}

/// The supervisor after the events `events`, taken in from the initial
/// state one after the other.
pub open spec fn run(events: Seq<Event>) -> Supervisor
    decreases events.len(),
{
    if events.len() == 0 {
        Supervisor::initial()
    } else {
        run(events.drop_last()).next(events.last()).0
    }
}

/// What the supervisor answers to the last of `events`.
pub open spec fn last_command(events: Seq<Event>) -> Command
    recommends
        events.len() > 0,
{
    run(events.drop_last()).next(events.last()).1
}

/// How often, over `events`, the supervisor asked for a spawn.
pub open spec fn spawns_asked(events: Seq<Event>) -> nat
    decreases events.len(),
{
    if events.len() == 0 {
        0
    } else if last_command(events) is Spawn {
        spawns_asked(events.drop_last()) + 1
    } else {
        spawns_asked(events.drop_last())
    }
}

/// How often, over `events`, the supervisor learned that a spawn had come to
/// its end: the child had exited, could not be spawned, or could not be
/// waited for.  Reports that the supervisor ignored do not count.
pub open spec fn spawns_ended(events: Seq<Event>) -> nat
    decreases events.len(),
{
    if events.len() == 0 {
        0
    } else {
        let ended = match last_command(events) {
            Command::ReadChannel => true,
            Command::Fail(_) => true,
            _ => false,
        };
        if ended {
            spawns_ended(events.drop_last()) + 1
        } else {
            spawns_ended(events.drop_last())
        }
    }
}

/// At most one child at a time.  Whatever is reported, and in whatever
/// order, the spawns asked for exceed the spawns that have ended by one while
/// the supervisor holds a child, and by none otherwise; so a spawn is asked
/// for only when every earlier one has ended.
pub proof fn lemma_one_child_at_a_time(events: Seq<Event>)
    ensures
        run(events).policy.wf(),
        run(events).holds_child() ==> spawns_asked(events) == spawns_ended(events) + 1,
        !run(events).holds_child() ==> spawns_asked(events) == spawns_ended(events),
        events.len() > 0 && last_command(events) is Spawn ==> spawns_asked(events.drop_last())
            == spawns_ended(events.drop_last()),
    decreases events.len(),
{
    if events.len() > 0 {
        lemma_one_child_at_a_time(events.drop_last());
    }
}

/// The watch does not resume: once stopped, the supervisor ignores every
/// report and asks for nothing more.
pub proof fn lemma_stopped_is_final(events: Seq<Event>, more: Seq<Event>)
    requires
        run(events).phase is Stopped,
    ensures
        run(events + more) == run(events),
        spawns_asked(events + more) == spawns_asked(events),
    decreases more.len(),
{
    if more.len() > 0 {
        lemma_stopped_is_final(events, more.drop_last());
        assert((events + more).drop_last() =~= events + more.drop_last());
    }
}

/// Whether every run that ends within `events` was a short one.
pub open spec fn all_runs_short(events: Seq<Event>) -> bool
    decreases events.len(),
{
    if events.len() == 0 {
        true
    } else {
        let before = run(events.drop_last());
        &&& all_runs_short(events.drop_last())
        &&& match (before.phase, events.last()) {
            (Phase::Running, Event::ChildExited { exit_code, now }) => !ran_long(
                before.policy.run_started_at,
                now,
            ),
            _ => true,
        }
    }
}

/// The restart budget bounds a crash loop: as long as no run is a long one,
/// the application is started at most once and restarted at most
/// `MAX_RESTARTS` times, whatever is reported.
pub proof fn lemma_crash_loop_is_bounded(events: Seq<Event>)
    requires
        all_runs_short(events),
    ensures
        spawns_asked(events) <= MAX_RESTARTS + 1,
        match run(events).phase {
            Phase::Idle => spawns_asked(events) == 0 && run(events).policy.attempts == 0,
            Phase::Restarting => spawns_asked(events) == run(events).policy.attempts,
            _ => spawns_asked(events) == run(events).policy.attempts + 1,
        },
        run(events).phase matches Phase::Exited { exit_code, exited_at } ==> !ran_long(
            run(events).policy.run_started_at,
            exited_at,
        ),
        run(events).policy.wf(),
    decreases events.len(),
{
    if events.len() > 0 {
        lemma_crash_loop_is_bounded(events.drop_last());
    }
}

} // verus!
