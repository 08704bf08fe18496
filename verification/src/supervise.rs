//! The supervise loop's decisions: a two-state machine — spawning, running —
//! with no terminal state, driven by spawn results and exit notifications;
//! and the dispatch rule of the process-wide signal loop.
//!
//! The loop around these decisions performs the outside work: it spawns the
//! executable, hands the child's input to the hand-off, drains its output,
//! and blocks for notifications. Every decision — what follows each event —
//! is made here.

use vstd::prelude::*;

verus! {

/// Where one monitor stands.
#[derive(Debug, PartialEq, Eq, Structural, Clone, Copy)]
pub enum MonitorState {
    /// About to spawn a fresh child of its executable.
    Spawning,
    /// A child is alive and watched.
    Running { pid: i32 },
}

/// What can happen to one monitor.
#[derive(Debug, PartialEq, Eq, Structural, Clone, Copy)]
pub enum MonitorEvent {
    /// The spawn attempt produced a child.
    Spawned { pid: i32 },
    /// The spawn attempt failed.
    SpawnFailed,
    /// An exit notification was observed.
    Notified { pid: i32 },
}

/// What the monitor's loop does next.
#[derive(Debug, PartialEq, Eq, Structural, Clone, Copy)]
pub enum MonitorAction {
    /// Hand the rendezvous address to the child and block for its exit.
    HandOffAndWatch { pid: i32 },
    /// A spawn failure is fatal to this one monitor: stop supervising,
    /// siblings are unaffected.
    GiveUp,
    /// The event is not this monitor's: keep waiting.
    KeepWaiting,
    /// The watched child is gone: discard the manager, pause for the
    /// teardown delay, and spawn the same executable again.
    Respawn,
}

/// The monitor's transition rule. Every exit of the watched child — clean or
/// crashed — leads back to spawning; a notification for any other pid
/// changes nothing; only a spawn failure ends the supervision.
pub open spec fn spec_supervise_step(state: MonitorState, event: MonitorEvent) -> (
    MonitorState,
    MonitorAction,
) {
    match (state, event) {
        (MonitorState::Spawning, MonitorEvent::Spawned { pid }) => (
            MonitorState::Running { pid },
            MonitorAction::HandOffAndWatch { pid },
        ),
        (MonitorState::Spawning, MonitorEvent::SpawnFailed) => (
            MonitorState::Spawning,
            MonitorAction::GiveUp,
        ),
        (MonitorState::Running { pid }, MonitorEvent::Notified { pid: reaped }) => {
            if pid == reaped {
                (MonitorState::Spawning, MonitorAction::Respawn)
            } else {
                (MonitorState::Running { pid }, MonitorAction::KeepWaiting)
            }
        },
        (s, _) => (s, MonitorAction::KeepWaiting),
    }
}

/// Decides one step of the supervise loop. See [`spec_supervise_step`].
pub fn supervise_step(state: MonitorState, event: MonitorEvent) -> (r: (
    MonitorState,
    MonitorAction,
))
    ensures
        r == spec_supervise_step(state, event),
{
    match (state, event) {
        (MonitorState::Spawning, MonitorEvent::Spawned { pid }) => (
            MonitorState::Running { pid },
            MonitorAction::HandOffAndWatch { pid },
        ),
        (MonitorState::Spawning, MonitorEvent::SpawnFailed) => (
            MonitorState::Spawning,
            MonitorAction::GiveUp,
        ),
        (MonitorState::Running { pid }, MonitorEvent::Notified { pid: reaped }) => {
            if pid == reaped {
                (MonitorState::Spawning, MonitorAction::Respawn)
            } else {
                (MonitorState::Running { pid }, MonitorAction::KeepWaiting)
            }
        },
        (s, _) => (s, MonitorAction::KeepWaiting),
    }
}

/// Law (restart liveness): while a child runs, the notification of its exit
/// — and only that notification — moves the monitor back to spawning with a
/// respawn of the same executable; there is no restart budget, so this holds
/// of every exit, indefinitely. The monitor leaves its loop only through a
/// spawn failure.
pub proof fn lemma_restart_liveness(pid: i32)
    ensures
        spec_supervise_step(MonitorState::Running { pid }, MonitorEvent::Notified { pid }) == (
            MonitorState::Spawning,
            MonitorAction::Respawn,
        ),
        forall|q: i32|
            q != pid ==> spec_supervise_step(
                MonitorState::Running { pid },
                MonitorEvent::Notified { pid: q },
            ) == (MonitorState::Running { pid }, MonitorAction::KeepWaiting),
        forall|e: MonitorEvent|
            spec_supervise_step(MonitorState::Running { pid }, e).1
                != MonitorAction::GiveUp,
{
}

/// The fixed invocation convention for a supervised executable: it is
/// always started as `<path> --address <rendezvous_address>`.
pub fn invocation_args(address: &str) -> (args: Vec<String>)
    ensures
        args@.len() == 2,
        args@[0]@ == "--address"@,
        args@[1]@ == address@,
{
    let mut args: Vec<String> = Vec::new();
    args.push(String::from_str("--address"));
    args.push(String::from_str(address));
    args
}

/// The signals the process-wide dispatch loop listens for.
#[derive(Debug, PartialEq, Eq, Structural, Clone, Copy)]
pub enum SignalKind {
    Hangup,
    Interrupt,
    Terminate,
    Child,
}

/// What the dispatch loop does on a signal.
#[derive(Debug, PartialEq, Eq, Structural, Clone, Copy)]
pub enum SignalAction {
    /// Hand the signal to the caller's pluggable policy (log-and-continue
    /// for the long-lived engine, immediate exit for short-lived plugins).
    CallerPolicy,
    /// Run the reaper's catch-all sweep for any terminated child.
    ReapAll,
}

/// The dispatch rule: the child-notification signal answers with the
/// catch-all sweep, since the operating system only promises that some
/// child changed state; hangup, interrupt and terminate are the caller's.
pub fn signal_action(kind: SignalKind) -> (action: SignalAction)
    ensures
        action == (match kind {
            SignalKind::Child => SignalAction::ReapAll,
            _ => SignalAction::CallerPolicy,
        }),
{
    match kind {
        SignalKind::Child => SignalAction::ReapAll,
        _ => SignalAction::CallerPolicy,
    }
}

} // verus!
