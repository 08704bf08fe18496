//! The reaper: non-blocking collection of terminated child processes and
//! delivery of exit notifications.
//!
//! The operating system only promises "a child changed state", never which
//! one or how many, so a single reaper-class signal is answered by a sweep
//! that keeps asking until nothing is left to collect. Each collected pid is
//! handed to the notification hub, which routes it to the channel subscribed
//! for exactly that pid — or parks it for that pid's future watcher — before
//! it is recorded in the sweep's result.

use vstd::prelude::*;
use crate::notify::{DeliverOutcome, NotificationHub};
use nix::errno::Errno;
use nix::sys::wait::{waitpid, WaitPidFlag, WaitStatus};
use nix::unistd::Pid;

verus! {

/// What one non-blocking wait attempt reported, reduced to the distinctions
/// the reaper acts on.
#[derive(Debug, PartialEq, Eq, Structural, Clone, Copy)]
pub enum WaitOutcome {
    /// A child exited on its own; its status is now collected.
    Exited { pid: i32 },
    /// A child was terminated by a signal; its status is now collected.
    Signaled { pid: i32 },
    /// Children exist but none has changed state.
    StillAlive,
    /// A child changed state without terminating (stopped or continued).
    OtherChange,
    /// The wait itself was interrupted by a signal; it should be retried.
    Interrupted,
    /// There is no child left to wait for.
    NoChildren,
    /// The wait failed for some other reason, fatal to the sweep.
    Failed { errno: i32 },
}

/// Why a sweep gave up.
#[derive(Debug, PartialEq, Eq, Structural, Clone, Copy)]
pub enum ReapError {
    /// The wait call failed with an error that is neither "interrupted" nor
    /// "no children".
    WaitError { errno: i32 },
    /// A collected pid could not be handed to its subscribed watcher: that
    /// watcher's channel is dead.
    SendError { pid: i32 },
}

/// What the sweep does with one wait outcome.
#[derive(Debug, PartialEq, Eq, Structural, Clone, Copy)]
pub enum ReapAction {
    /// A child was collected: deliver its pid and record it.
    Publish { pid: i32 },
    /// Nothing (more) to collect right now: stop with what was gathered.
    Stop,
    /// The wait was interrupted: ask again, surfacing nothing.
    Retry,
    /// A fatal wait error: give up the sweep.
    Fail { errno: i32 },
}

/// The sweep's decision rule, one wait outcome at a time: terminations are
/// published, "nothing to report" and "no children" end the sweep normally,
/// an interrupted wait is retried transparently, and any other error is
/// surfaced.
pub open spec fn spec_reap_step(outcome: WaitOutcome) -> ReapAction {
    match outcome {
        WaitOutcome::Exited { pid } => ReapAction::Publish { pid },
        WaitOutcome::Signaled { pid } => ReapAction::Publish { pid },
        WaitOutcome::StillAlive => ReapAction::Stop,
        WaitOutcome::OtherChange => ReapAction::Stop,
        WaitOutcome::NoChildren => ReapAction::Stop,
        WaitOutcome::Interrupted => ReapAction::Retry,
        WaitOutcome::Failed { errno } => ReapAction::Fail { errno },
    }
}

/// Decides what a sweep does with one wait outcome. See [`spec_reap_step`].
pub fn reap_step(outcome: WaitOutcome) -> (action: ReapAction)
    ensures
        action == spec_reap_step(outcome),
{
    match outcome {
        WaitOutcome::Exited { pid } => ReapAction::Publish { pid },
        WaitOutcome::Signaled { pid } => ReapAction::Publish { pid },
        WaitOutcome::StillAlive => ReapAction::Stop,
        WaitOutcome::OtherChange => ReapAction::Stop,
        WaitOutcome::NoChildren => ReapAction::Stop,
        WaitOutcome::Interrupted => ReapAction::Retry,
        WaitOutcome::Failed { errno } => ReapAction::Fail { errno },
    }
}

/// Relies on nix::sys::wait::waitpid with WNOHANG: it reports state changes
/// of the calling process's own children only, so a reported pid is a real
/// (positive) child pid, and with a positive target it reports that process
/// alone. A target of -1 asks about any child.
#[verifier::external_body]
fn wait_nohang(target: i32) -> (outcome: WaitOutcome)
    requires
        target == -1 || target > 0,
    ensures
        outcome matches WaitOutcome::Exited { pid } ==> pid > 0 && (target > 0 ==> pid
            == target),
        outcome matches WaitOutcome::Signaled { pid } ==> pid > 0 && (target > 0 ==> pid
            == target),
{
    match waitpid(Pid::from_raw(target), Some(WaitPidFlag::WNOHANG)) {
        Ok(WaitStatus::Exited(p, _)) => WaitOutcome::Exited { pid: p.as_raw() },
        Ok(WaitStatus::Signaled(p, _, _)) => WaitOutcome::Signaled { pid: p.as_raw() },
        Ok(WaitStatus::StillAlive) => WaitOutcome::StillAlive,
        Ok(_) => WaitOutcome::OtherChange,
        Err(Errno::EINTR) => WaitOutcome::Interrupted,
        Err(Errno::ECHILD) => WaitOutcome::NoChildren,
        Err(e) => WaitOutcome::Failed { errno: e as i32 },
    }
}

/// The process-wide reaping facility. It holds no state of its own: the
/// sweep reads the operating system and writes to the notification hub the
/// caller serializes access to.
#[derive(Clone, Copy, Debug)]
pub struct Reaper {}

/// The process-wide reaping pair: an empty notification hub, and the reaper
/// that will deliver every collected pid through it.
pub fn new() -> (r: (NotificationHub, Reaper))
    ensures
        r.0.inv(),
        r.0@.watchers == Set::<i32>::empty(),
        r.0@.parked == Set::<i32>::empty(),
{
    (NotificationHub::new(), Reaper {  })
}

impl Reaper {
    /// One sweep for terminated children.
    ///
    /// With `pid == -1` the sweep keeps asking for any terminated child,
    /// delivering and recording each collected pid, until nothing is left
    /// to report. With a positive `pid` it makes at most one (transparently
    /// retried) attempt for that process alone and never collects another:
    /// the result then holds at most one pid, equal to `pid`. Every
    /// recorded pid was first handed to `hub`, which routes it to the
    /// channel subscribed for that pid or parks it for that pid's future
    /// watcher; the hub's subscriptions are untouched and nothing parked is
    /// lost. An interrupted wait is retried silently; any other wait error,
    /// or a subscribed watcher's dead channel, ends the sweep with the
    /// matching error.
    pub fn reap(&self, pid: i32, hub: &mut NotificationHub) -> (r: Result<Vec<i32>, ReapError>)
        requires
            pid == -1 || pid > 0,
            old(hub).inv(),
        ensures
            final(hub).inv(),
            final(hub)@.watchers == old(hub)@.watchers,
            forall|p: i32| old(hub)@.parked.contains(p) ==> final(hub)@.parked.contains(p),
            forall|p: i32|
                final(hub)@.parked.contains(p) ==> old(hub)@.parked.contains(p) || p > 0,
            r matches Ok(pids) ==> forall|i: int| 0 <= i < pids@.len() ==> pids@[i] > 0,
            pid > 0 ==> (r matches Ok(pids) ==> pids@.len() <= 1),
            pid > 0 ==> (r matches Ok(pids) ==> forall|i: int|
                0 <= i < pids@.len() ==> pids@[i] == pid),
            (r matches Err(ReapError::SendError { pid: failed }) ==> failed > 0 && (pid > 0
                ==> failed == pid)),
    {
        let mut pids: Vec<i32> = Vec::new();

        // Each round trip through this loop either collects a child, retries
        // an interrupted wait, or returns. The count of rounds is in practice
        // bounded by the children and signals the process ever sees; the
        // counter below only gives the loop a measure.
        let mut rounds: u64 = u64::MAX;

        while rounds > 0
            invariant
                pid == -1 || pid > 0,
                hub.inv(),
                hub@.watchers == old(hub)@.watchers,
                forall|p: i32| old(hub)@.parked.contains(p) ==> hub@.parked.contains(p),
                forall|p: i32| hub@.parked.contains(p) ==> old(hub)@.parked.contains(p) || p > 0,
                forall|i: int| 0 <= i < pids@.len() ==> pids@[i] > 0,
                pid > 0 ==> pids@.len() == 0,
            decreases rounds,
        {
            rounds = rounds - 1;
            let outcome = wait_nohang(pid);

            match reap_step(outcome) {
                ReapAction::Publish { pid: collected } => {
                    match hub.deliver(collected) {
                        DeliverOutcome::ChannelDead => {
                            return Err(ReapError::SendError { pid: collected });
                        },
                        DeliverOutcome::Delivered => {},
                        DeliverOutcome::Parked => {},
                    }
                    pids.push(collected);
                    if pid != -1 {
                        return Ok(pids);
                    }
                },
                ReapAction::Stop => {
                    return Ok(pids);
                },
                ReapAction::Retry => {},
                ReapAction::Fail { errno } => {
                    return Err(ReapError::WaitError { errno });
                },
            }
        }
        Ok(pids)
    }
}

} // verus!
