//! A bookkeeping table of one process's children and their states, together
//! with the laws of reaping that the supervisor depends on.
//!
//! The kernel keeps each child as running, terminated-but-uncollected (a
//! zombie), or collected. A sweep collects every zombie, exactly once, and a
//! collected pid can never be reported again. Those facts are stated here
//! over an explicit table whose sweep runs the same decision rule
//! ([`crate::reaper::reap_step`]) as the process-facing sweep, and they are
//! proved for every sequence of spawns, kills and sweeps.

use vstd::prelude::*;
use crate::reaper::{reap_step, ReapAction, WaitOutcome};
use crate::pids::{vec_contains, vec_remove_value};

verus! {

broadcast use vstd::set::group_set_axioms, vstd::seq_lib::group_seq_properties;

/// The abstract table: which pids are running, which have terminated but
/// await collection, and which have been collected.
pub struct TableModel {
    pub running: Set<i32>,
    pub zombies: Set<i32>,
    pub reaped: Set<i32>,
}

/// Well-formedness: finitely many children, every pid positive, and each pid
/// in at most one state.
pub open spec fn wf(m: TableModel) -> bool {
    &&& m.running.finite()
    &&& m.zombies.finite()
    &&& m.reaped.finite()
    &&& (forall|p: i32| #[trigger] m.running.contains(p) ==> p > 0)
    &&& (forall|p: i32| #[trigger] m.zombies.contains(p) ==> p > 0)
    &&& (forall|p: i32| #[trigger] m.reaped.contains(p) ==> p > 0)
    &&& (forall|p: i32| #[trigger] m.running.contains(p) ==> !m.zombies.contains(p))
    &&& (forall|p: i32| #[trigger] m.running.contains(p) ==> !m.reaped.contains(p))
    &&& (forall|p: i32| #[trigger] m.zombies.contains(p) ==> !m.reaped.contains(p))
}

/// What can happen to the table: a fresh child appears, a running child is
/// terminated, or a sweep collects every zombie at once.
pub enum OsEvent {
    Spawn { pid: i32 },
    Kill { pid: i32 },
    Sweep,
}

/// When an event can happen.
pub open spec fn enabled(m: TableModel, e: OsEvent) -> bool {
    match e {
        OsEvent::Spawn { pid } => pid > 0 && !m.running.contains(pid) && !m.zombies.contains(
            pid,
        ) && !m.reaped.contains(pid),
        OsEvent::Kill { pid } => m.running.contains(pid),
        OsEvent::Sweep => true,
    }
}

/// The table after an event.
pub open spec fn step(m: TableModel, e: OsEvent) -> TableModel {
    match e {
        OsEvent::Spawn { pid } => TableModel {
            running: m.running.insert(pid),
            zombies: m.zombies,
            reaped: m.reaped,
        },
        OsEvent::Kill { pid } => TableModel {
            running: m.running.remove(pid),
            zombies: m.zombies.insert(pid),
            reaped: m.reaped,
        },
        OsEvent::Sweep => TableModel {
            running: m.running,
            zombies: Set::empty(),
            reaped: m.reaped.union(m.zombies),
        },
    }
}

/// The pids an event reports to the waiting side: a sweep reports exactly
/// the zombies it collects, anything else reports nothing.
pub open spec fn emitted(m: TableModel, e: OsEvent) -> Set<i32> {
    match e {
        OsEvent::Sweep => m.zombies,
        _ => Set::empty(),
    }
}

/// The table reached from `m` after the first `i` events of `es`.
pub open spec fn state_at(m: TableModel, es: Seq<OsEvent>, i: int) -> TableModel
    decreases i,
{
    if i <= 0 {
        m
    } else {
        step(state_at(m, es, i - 1), es[i - 1])
    }
}

/// Whether every event of `es` is enabled when its turn comes.
pub open spec fn trace_enabled(m: TableModel, es: Seq<OsEvent>) -> bool {
    forall|i: int| 0 <= i < es.len() ==> enabled(state_at(m, es, i), #[trigger] es[i])
}

/// An event enabled on a well-formed table leaves it well-formed.
pub proof fn lemma_step_preserves_wf(m: TableModel, e: OsEvent)
    requires
        wf(m),
        enabled(m, e),
    ensures
        wf(step(m, e)),
{
}

/// Every table along an enabled trace is well-formed.
pub proof fn lemma_wf_at(m: TableModel, es: Seq<OsEvent>, i: int)
    requires
        wf(m),
        trace_enabled(m, es),
        0 <= i <= es.len(),
    ensures
        wf(state_at(m, es, i)),
    decreases i,
{
    if i > 0 {
        lemma_wf_at(m, es, i - 1);
        lemma_step_preserves_wf(state_at(m, es, i - 1), es[i - 1]);
    }
}

/// Once collected, always collected: along any enabled trace, a pid that is
/// collected at step `i` is still collected at step `j`, and is never a
/// zombie again.
pub proof fn lemma_reaped_stays(m: TableModel, es: Seq<OsEvent>, i: int, j: int, p: i32)
    requires
        wf(m),
        trace_enabled(m, es),
        0 <= i <= j <= es.len(),
        state_at(m, es, i).reaped.contains(p),
    ensures
        state_at(m, es, j).reaped.contains(p),
        !state_at(m, es, j).zombies.contains(p),
    decreases j - i,
{
    lemma_wf_at(m, es, i);
    if j > i {
        lemma_reaped_stays(m, es, i, j - 1, p);
        lemma_wf_at(m, es, j - 1);
    }
}

/// A zombie stays a zombie until a sweep: if no sweep happens in `[i, j)`,
/// a pid that is a zombie at step `i` is still a zombie at step `j`.
pub proof fn lemma_zombie_stays(m: TableModel, es: Seq<OsEvent>, i: int, j: int, p: i32)
    requires
        trace_enabled(m, es),
        0 <= i <= j <= es.len(),
        state_at(m, es, i).zombies.contains(p),
        forall|k: int| i <= k < j ==> !(#[trigger] es[k] is Sweep),
    ensures
        state_at(m, es, j).zombies.contains(p),
    decreases j - i,
{
    if j > i {
        lemma_zombie_stays(m, es, i, j - 1, p);
    }
}

/// Law (no double-reap): along any enabled trace from a well-formed table, a
/// pid reported by the sweep at position `i` is never reported by a later
/// sweep — a subsequent sweep sees either no children or zombies disjoint
/// from everything already collected.
pub proof fn lemma_no_double_reap(m: TableModel, es: Seq<OsEvent>, i: int, j: int, p: i32)
    requires
        wf(m),
        trace_enabled(m, es),
        0 <= i < j < es.len(),
        emitted(state_at(m, es, i), es[i]).contains(p),
    ensures
        !emitted(state_at(m, es, j), es[j]).contains(p),
{
    assert(es[i] is Sweep);
    assert(state_at(m, es, i + 1) == step(state_at(m, es, i), es[i]));
    assert(state_at(m, es, i + 1).reaped.contains(p));
    lemma_reaped_stays(m, es, i + 1, j, p);
}

/// Law (notification delivery): along any enabled trace from a well-formed
/// table, a pid that is terminated and uncollected at step `i` is reported
/// by the first sweep that follows — no termination is omitted. Together
/// with [`lemma_no_double_reap`] this makes the reports of repeated sweeps a
/// partition of the terminated children: each is reported exactly once.
pub proof fn lemma_notification_delivery(m: TableModel, es: Seq<OsEvent>, i: int, j: int, p: i32)
    requires
        wf(m),
        trace_enabled(m, es),
        0 <= i <= j < es.len(),
        state_at(m, es, i).zombies.contains(p),
        es[j] is Sweep,
        forall|k: int| i <= k < j ==> !(#[trigger] es[k] is Sweep),
    ensures
        emitted(state_at(m, es, j), es[j]).contains(p),
{
    lemma_zombie_stays(m, es, i, j, p);
}

/// The executable table: the same model, kept as duplicate-free vectors so
/// that scenarios can be driven and observed.
pub struct ChildTable {
    running: Vec<i32>,
    zombies: Vec<i32>,
    reaped: Vec<i32>,
}

impl View for ChildTable {
    type V = TableModel;

    closed spec fn view(&self) -> TableModel {
        TableModel {
            running: self.running@.to_set(),
            zombies: self.zombies@.to_set(),
            reaped: self.reaped@.to_set(),
        }
    }
}

impl ChildTable {
    /// The table's invariant: the vectors are duplicate-free and the model
    /// they denote is well-formed.
    pub closed spec fn inv(&self) -> bool {
        &&& self.running@.no_duplicates()
        &&& self.zombies@.no_duplicates()
        &&& self.reaped@.no_duplicates()
        &&& wf(self@)
    }

    /// The invariant implies the model's well-formedness.
    pub proof fn lemma_inv_wf(&self)
        requires
            self.inv(),
        ensures
            wf(self@),
    {
    }

    /// A table with no children at all.
    pub fn new() -> (t: ChildTable)
        ensures
            t.inv(),
            t@.running == Set::<i32>::empty(),
            t@.zombies == Set::<i32>::empty(),
            t@.reaped == Set::<i32>::empty(),
    {
        let t = ChildTable { running: Vec::new(), zombies: Vec::new(), reaped: Vec::new() };
        proof {
            assert(t@.running =~= Set::<i32>::empty());
            assert(t@.zombies =~= Set::<i32>::empty());
            assert(t@.reaped =~= Set::<i32>::empty());
        }
        t
    }

    /// A fresh child starts running.
    pub fn spawn(&mut self, pid: i32)
        requires
            old(self).inv(),
            enabled(old(self)@, OsEvent::Spawn { pid }),
        ensures
            final(self).inv(),
            final(self)@ == step(old(self)@, OsEvent::Spawn { pid }),
    {
        proof {
            if self.running@.contains(pid) {
                assert(self@.running.contains(pid));
            }
        }
        self.running.push(pid);
        proof {
            assert(final(self)@.running =~= old(self)@.running.insert(pid));
            assert(final(self)@ == step(old(self)@, OsEvent::Spawn { pid }));
        }
    }

    /// A running child is terminated and becomes a zombie.
    pub fn kill(&mut self, pid: i32)
        requires
            old(self).inv(),
            enabled(old(self)@, OsEvent::Kill { pid }),
        ensures
            final(self).inv(),
            final(self)@ == step(old(self)@, OsEvent::Kill { pid }),
    {
        vec_remove_value(&mut self.running, pid);
        proof {
            if self.zombies@.contains(pid) {
                assert(old(self)@.zombies.contains(pid));
            }
        }
        self.zombies.push(pid);
        proof {
            assert(final(self)@.zombies =~= old(self)@.zombies.insert(pid));
            assert(final(self)@ == step(old(self)@, OsEvent::Kill { pid }));
        }
    }

    /// One non-blocking wait attempt against the table, answering as the
    /// kernel's wait does: some zombie if there is one, "still alive" if
    /// children exist but none terminated, "no children" otherwise.
    fn wait_any(&mut self) -> (o: WaitOutcome)
        requires
            old(self).inv(),
        ensures
            final(self).inv(),
            (o matches WaitOutcome::Signaled { pid } ==> old(self)@.zombies.contains(pid)
                && final(self)@.running == old(self)@.running && final(self)@.zombies == old(
                self,
            )@.zombies.remove(pid) && final(self)@.reaped == old(self)@.reaped.insert(pid)),
            (o is Signaled <==> old(self)@.zombies.len() > 0),
            (o is StillAlive ==> final(self)@ == old(self)@ && old(self)@.running.len() > 0),
            (o is NoChildren ==> final(self)@ == old(self)@ && old(self)@.running.len() == 0),
            (o is Signaled || o is StillAlive || o is NoChildren),
    {
        proof {
            self.zombies@.unique_seq_to_set();
            self.running@.unique_seq_to_set();
        }
        match self.zombies.pop() {
            Some(pid) => {
                proof {
                    let zs = old(self).zombies@;
                    assert(zs == self.zombies@.push(pid));
                    assert(zs.contains(pid)) by {
                        assert(zs[zs.len() - 1] == pid);
                    }
                    assert(self@.zombies =~= old(self)@.zombies.remove(pid)) by {
                        assert forall|q: i32| #[trigger]
                            self.zombies@.contains(q) implies zs.contains(q) && q != pid by {
                            let k = choose|k: int|
                                0 <= k < self.zombies@.len() && self.zombies@[k] == q;
                            assert(zs[k] == q);
                            if q == pid {
                                assert(zs[zs.len() - 1] == pid);
                            }
                        }
                        assert forall|q: i32|
                            zs.contains(q) && q != pid implies self.zombies@.contains(q) by {
                            let k = choose|k: int| 0 <= k < zs.len() && zs[k] == q;
                            assert(k < zs.len() - 1);
                            assert(self.zombies@[k] == q);
                        }
                    }
                    if self.reaped@.contains(pid) {
                        assert(old(self)@.reaped.contains(pid));
                    }
                }
                self.reaped.push(pid);
                proof {
                    assert(self@.reaped =~= old(self)@.reaped.insert(pid));
                    assert(old(self)@.zombies.contains(pid));
                    assert(old(self)@.zombies.len() > 0) by {
                        broadcast use vstd::set::axiom_set_contains_len;

                    }
                }
                WaitOutcome::Signaled { pid }
            },
            None => {
                proof {
                    assert(old(self)@.zombies =~= Set::<i32>::empty());
                }
                if self.running.len() > 0 {
                    proof {
                        assert(self@.running.contains(self.running@[0]));
                        assert(self@.running.len() > 0) by {
                            broadcast use vstd::set::axiom_set_contains_len;

                        }
                    }
                    WaitOutcome::StillAlive
                } else {
                    proof {
                        assert(self@.running =~= Set::<i32>::empty());
                    }
                    WaitOutcome::NoChildren
                }
            },
        }
    }

    /// The full sweep: keeps asking [`Self::wait_any`] and deciding with
    /// [`reap_step`], until nothing is left to report. It collects exactly
    /// the zombies — each reported once, none omitted, the running children
    /// untouched.
    pub fn reap_all(&mut self) -> (pids: Vec<i32>)
        requires
            old(self).inv(),
        ensures
            final(self).inv(),
            final(self)@ == step(old(self)@, OsEvent::Sweep),
            pids@.to_set() == old(self)@.zombies,
            pids@.no_duplicates(),
    {
        let mut pids: Vec<i32> = Vec::new();
        proof {
            assert(pids@.to_set() =~= Set::<i32>::empty());
        }
        loop
            invariant
                self.inv(),
                self@.running == old(self)@.running,
                pids@.no_duplicates(),
                old(self)@.zombies == self@.zombies.union(pids@.to_set()),
                self@.reaped == old(self)@.reaped.union(pids@.to_set()),
                forall|p: i32| #[trigger] pids@.contains(p) ==> !self@.zombies.contains(p),
            decreases self@.zombies.len(),
        {
            let ghost pre = *self;
            let o = self.wait_any();
            match reap_step(o) {
                ReapAction::Publish { pid } => {
                    proof {
                        assert(o == WaitOutcome::Signaled { pid });
                        assert(!pids@.contains(pid));
                        assert(pids@.push(pid).no_duplicates());
                        assert(pre@.zombies.len() > 0);
                        broadcast use vstd::set::axiom_set_remove_len;

                        assert(self@.zombies.len() < pre@.zombies.len());
                    }
                    let ghost seen = pids@;
                    pids.push(pid);
                    proof {
                        assert(pids@ == seen.push(pid));
                        assert(pids@.to_set() =~= seen.to_set().insert(pid));
                        assert(old(self)@.zombies =~= self@.zombies.union(pids@.to_set()));
                        assert(self@.reaped =~= old(self)@.reaped.union(pids@.to_set()));
                        assert forall|p: i32| #[trigger]
                            pids@.contains(p) implies !self@.zombies.contains(p) by {
                            assert(pids@.to_set().contains(p));
                            if p == pid {
                                assert(!pre@.zombies.remove(pid).contains(pid));
                            } else {
                                assert(seen.to_set().contains(p));
                                assert(seen.contains(p));
                            }
                        }
                    }
                },
                ReapAction::Stop => {
                    proof {
                        assert(self@.zombies.len() == 0);
                        assert(self@.zombies =~= Set::<i32>::empty());
                        assert(pids@.to_set() =~= old(self)@.zombies);
                        assert(final(self)@.zombies =~= step(old(self)@, OsEvent::Sweep).zombies);
                        assert(final(self)@.reaped =~= step(old(self)@, OsEvent::Sweep).reaped);
                    }
                    return pids;
                },
                ReapAction::Retry => {
                    proof {
                        assert(false);
                    }
                },
                ReapAction::Fail { .. } => {
                    proof {
                        assert(false);
                    }
                },
            }
        }
    }

    /// Whether `pid` is currently running.
    pub fn is_running(&self, pid: i32) -> (r: bool)
        ensures
            r == self@.running.contains(pid),
    {
        vec_contains(&self.running, pid)
    }

    /// Whether `pid` is terminated but not yet collected.
    pub fn is_zombie(&self, pid: i32) -> (r: bool)
        ensures
            r == self@.zombies.contains(pid),
    {
        vec_contains(&self.zombies, pid)
    }

    /// Whether `pid` has been collected by a sweep.
    pub fn is_reaped(&self, pid: i32) -> (r: bool)
        ensures
            r == self@.reaped.contains(pid),
    {
        vec_contains(&self.reaped, pid)
    }
}

} // verus!
