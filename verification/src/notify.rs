//! Exit-notification delivery to the specific waiter.
//!
//! Every manager waits on a channel of its own. A watcher subscribes its
//! child's pid together with the sending half of that dedicated channel,
//! and the reaper's sweep hands each collected pid to the subscription
//! registered for that pid — never to a watcher of a different pid, so no
//! notification can be taken and dropped by the wrong manager. A pid
//! collected before its watcher subscribes is parked, and the subscription
//! claims it; no notification is dropped.

use vstd::prelude::*;
use crossbeam_channel::{Receiver, Sender};

verus! {

broadcast use vstd::set::group_set_axioms, vstd::seq_lib::group_seq_properties;

#[verifier::external_type_specification]
#[verifier::external_body]
#[verifier::reject_recursive_types(T)]
pub struct ExSender<T>(Sender<T>);

#[verifier::external_type_specification]
#[verifier::external_body]
#[verifier::reject_recursive_types(T)]
pub struct ExReceiver<T>(Receiver<T>);

/// Relies on crossbeam_channel::Sender::send: places the value in the
/// queue, failing only when every receiver half has been dropped.
#[verifier::external_body]
pub(crate) fn send_pid(tx: &Sender<i32>, pid: i32) -> (ok: bool) {
    tx.send(pid).is_ok()
}

/// What the hub looks like from outside: which pids have a subscribed
/// watcher, and which collected pids are parked awaiting one.
pub struct HubModel {
    pub watchers: Set<i32>,
    pub parked: Set<i32>,
}

/// Well-formedness: finitely many entries, and no pid both watched and
/// parked.
pub open spec fn hub_wf(h: HubModel) -> bool {
    &&& h.watchers.finite()
    &&& h.parked.finite()
    &&& (forall|p: i32| #[trigger] h.watchers.contains(p) ==> !h.parked.contains(p))
}

/// What a subscription attempt finds.
#[derive(Debug, PartialEq, Eq, Structural, Clone, Copy)]
pub enum SubscribeOutcome {
    /// The subscription is in place; the watcher may wait on its channel.
    Watching,
    /// The pid had already been collected: the parked notification is
    /// claimed, and the watcher must not wait for another.
    AlreadyReaped,
    /// Some subscription for this pid already exists; nothing changed.
    AlreadyWatched,
}

/// Where a collected pid went.
#[derive(Debug, PartialEq, Eq, Structural, Clone, Copy)]
pub enum DeliverOutcome {
    /// Handed to the channel subscribed for this pid.
    Delivered,
    /// No watcher yet: parked until one subscribes.
    Parked,
    /// The channel subscribed for this pid is dead.
    ChannelDead,
}

/// What one subscription does to the hub: an existing subscription is left
/// alone, a parked collection is claimed, and otherwise the watcher is
/// recorded.
pub open spec fn spec_subscribe(h: HubModel, pid: i32) -> (HubModel, SubscribeOutcome) {
    if h.watchers.contains(pid) {
        (h, SubscribeOutcome::AlreadyWatched)
    } else if h.parked.contains(pid) {
        (
            HubModel { watchers: h.watchers, parked: h.parked.remove(pid) },
            SubscribeOutcome::AlreadyReaped,
        )
    } else {
        (HubModel { watchers: h.watchers.insert(pid), parked: h.parked }, SubscribeOutcome::Watching)
    }
}

/// What delivering one collected pid does to the hub: handed over if its
/// watcher is subscribed (the hub unchanged), parked otherwise — never
/// dropped, and never offered to a watcher of a different pid.
pub open spec fn spec_deliver(h: HubModel, pid: i32) -> (HubModel, bool) {
    if h.watchers.contains(pid) {
        (h, true)
    } else {
        (HubModel { watchers: h.watchers, parked: h.parked.insert(pid) }, false)
    }
}

/// A subscription pairs the watched pid with the sending half of that
/// watcher's own channel.
struct Subscription {
    pid: i32,
    tx: Sender<i32>,
}

/// The delivery registry: one subscription per watched pid, plus the
/// collected pids still awaiting their watcher.
pub struct NotificationHub {
    entries: Vec<Subscription>,
    parked: Vec<i32>,
}

impl View for NotificationHub {
    type V = HubModel;

    closed spec fn view(&self) -> HubModel {
        HubModel { watchers: self.pid_seq().to_set(), parked: self.parked@.to_set() }
    }
}

impl NotificationHub {
    spec fn pid_seq(&self) -> Seq<i32> {
        self.entries@.map(|i: int, s: Subscription| s.pid)
    }

    /// The hub's invariant: one subscription per pid, each parked pid
    /// recorded once, and no pid both watched and parked.
    pub closed spec fn inv(&self) -> bool {
        &&& self.pid_seq().no_duplicates()
        &&& self.parked@.no_duplicates()
        &&& hub_wf(self@)
    }

    /// The invariant implies the model's well-formedness.
    pub proof fn lemma_inv_wf(&self)
        requires
            self.inv(),
        ensures
            hub_wf(self@),
    {
    }

    /// A hub with no watchers and nothing parked.
    pub fn new() -> (h: NotificationHub)
        ensures
            h.inv(),
            h@.watchers == Set::<i32>::empty(),
            h@.parked == Set::<i32>::empty(),
    {
        let h = NotificationHub { entries: Vec::new(), parked: Vec::new() };
        proof {
            assert(h.pid_seq() =~= Seq::<i32>::empty());
            assert(h@.watchers =~= Set::<i32>::empty());
            assert(h@.parked =~= Set::<i32>::empty());
        }
        h
    }

    /// The position of the subscription for `pid`, if there is one.
    fn find(&self, pid: i32) -> (r: Option<usize>)
        ensures
            (r matches Some(k) ==> k < self.entries@.len() && self.entries@[k as int].pid == pid),
            r is Some <==> self@.watchers.contains(pid),
    {
        let n = self.entries.len();
        for i in 0..n
            invariant
                n == self.entries@.len(),
                forall|j: int| 0 <= j < i ==> self.entries@[j].pid != pid,
        {
            if self.entries[i].pid == pid {
                proof {
                    assert(self.pid_seq()[i as int] == pid);
                    assert(self.pid_seq().contains(pid));
                }
                return Some(i);
            }
        }
        proof {
            assert forall|k: int|
                0 <= k < self.pid_seq().len() implies self.pid_seq()[k] != pid by {
                assert(self.pid_seq()[k] == self.entries@[k].pid);
            }
            assert(!self.pid_seq().contains(pid));
        }
        None
    }

    /// Registers `tx` as the channel of the watcher of `pid` — unless `pid`
    /// was already collected, in which case the parked notification is
    /// claimed and the watcher must not wait. Exactly [`spec_subscribe`].
    pub fn subscribe(&mut self, pid: i32, tx: Sender<i32>) -> (o: SubscribeOutcome)
        requires
            old(self).inv(),
        ensures
            final(self).inv(),
            final(self)@ == spec_subscribe(old(self)@, pid).0,
            o == spec_subscribe(old(self)@, pid).1,
    {
        match self.find(pid) {
            Some(_) => SubscribeOutcome::AlreadyWatched,
            None => {
                if crate::pids::vec_contains(&self.parked, pid) {
                    proof {
                        assert(self@.parked.contains(pid));
                    }
                    crate::pids::vec_remove_value(&mut self.parked, pid);
                    SubscribeOutcome::AlreadyReaped
                } else {
                    let ghost before = self.pid_seq();
                    self.entries.push(Subscription { pid, tx });
                    proof {
                        assert(self.pid_seq() =~= before.push(pid));
                        assert(self@.watchers =~= old(self)@.watchers.insert(pid));
                        if self@.parked.contains(pid) {
                            assert(old(self)@.parked.contains(pid));
                        }
                        assert(!before.contains(pid));
                        assert(self.pid_seq().no_duplicates());
                    }
                    SubscribeOutcome::Watching
                }
            },
        }
    }

    /// Removes the subscription for `pid`, if any; parked pids are kept.
    pub fn unsubscribe(&mut self, pid: i32)
        requires
            old(self).inv(),
        ensures
            final(self).inv(),
            final(self)@.watchers == old(self)@.watchers.remove(pid),
            final(self)@.parked == old(self)@.parked,
    {
        match self.find(pid) {
            None => {
                proof {
                    assert(final(self)@.watchers =~= old(self)@.watchers.remove(pid));
                }
            },
            Some(k) => {
                self.entries.remove(k);
                proof {
                    let s = old(self).pid_seq();
                    let t = self.pid_seq();
                    old(self).entries@.remove_ensures(k as int);
                    assert(self.entries@ == old(self).entries@.remove(k as int));
                    assert forall|j: int| 0 <= j < t.len() implies t[j] == (if j < k {
                        s[j]
                    } else {
                        s[j + 1]
                    }) by {
                        assert(self.entries@[j] == old(self).entries@.remove(k as int)[j]);
                        assert(t[j] == self.entries@[j].pid);
                    }
                    assert(t.no_duplicates()) by {
                        assert forall|a: int, b: int|
                            0 <= a < t.len() && 0 <= b < t.len() && a != b implies t[a]
                            != t[b] by {
                            let a0: int = if a < k { a } else { a + 1 };
                            let b0: int = if b < k { b } else { b + 1 };
                            assert(t[a] == s[a0] && t[b] == s[b0]);
                            assert(s[a0] != s[b0]);
                        }
                    }
                    assert(t.to_set() =~= s.to_set().remove(pid)) by {
                        assert forall|q: i32| #[trigger]
                            t.contains(q) implies s.contains(q) && q != pid by {
                            let j = choose|j: int| 0 <= j < t.len() && t[j] == q;
                            let j0: int = if j < k { j } else { j + 1 };
                            assert(s[j0] == q);
                            if q == pid {
                                assert(s[k as int] == pid);
                            }
                        }
                        assert forall|q: i32| s.contains(q) && q != pid implies t.contains(q) by {
                            let j = choose|j: int| 0 <= j < s.len() && s[j] == q;
                            assert(s[k as int] == pid);
                            if j < k {
                                assert(t[j] == q);
                            } else {
                                assert(j != k);
                                assert(t[j - 1] == q);
                            }
                        }
                    }
                    assert(final(self)@.parked =~= old(self)@.parked);
                }
            },
        }
    }

    /// Delivers one collected pid: to the channel subscribed for that pid
    /// if its watcher is there, parked otherwise. Exactly [`spec_deliver`];
    /// the watcher of any other pid is left untouched and is offered
    /// nothing.
    pub fn deliver(&mut self, pid: i32) -> (o: DeliverOutcome)
        requires
            old(self).inv(),
        ensures
            final(self).inv(),
            final(self)@ == spec_deliver(old(self)@, pid).0,
            (o is Delivered || o is ChannelDead) <==> spec_deliver(old(self)@, pid).1,
            o is Parked <==> !old(self)@.watchers.contains(pid),
    {
        match self.find(pid) {
            Some(k) => {
                let entry = &self.entries[k];
                if send_pid(&entry.tx, pid) {
                    DeliverOutcome::Delivered
                } else {
                    DeliverOutcome::ChannelDead
                }
            },
            None => {
                if !crate::pids::vec_contains(&self.parked, pid) {
                    let ghost before = self.parked@;
                    self.parked.push(pid);
                    proof {
                        assert(self.parked@ =~= before.push(pid));
                        assert(self@.parked =~= old(self)@.parked.insert(pid));
                        assert(self.parked@.no_duplicates());
                    }
                } else {
                    proof {
                        assert(self@.parked =~= old(self)@.parked.insert(pid));
                    }
                }
                DeliverOutcome::Parked
            },
        }
    }
}

/// Law (delivery to the specific waiter): a collected pid reaches exactly
/// the watcher of that pid, in either order of subscription and collection.
/// If the watcher subscribes first, the collection is handed to that
/// watcher's own channel; if the collection comes first, it is handed to no
/// one — parked, not dropped — and the watcher's later subscription claims
/// it. Either way the watcher learns of the exit exactly once, and watchers
/// of every other pid see nothing of it.
pub proof fn lemma_delivery_to_specific_waiter(h: HubModel, pid: i32)
    requires
        hub_wf(h),
        !h.watchers.contains(pid),
        !h.parked.contains(pid),
    ensures
        spec_deliver(spec_subscribe(h, pid).0, pid).1,
        !spec_deliver(h, pid).1,
        spec_deliver(h, pid).0.parked.contains(pid),
        spec_subscribe(spec_deliver(h, pid).0, pid).1 == SubscribeOutcome::AlreadyReaped,
        spec_subscribe(spec_deliver(h, pid).0, pid).0.parked == h.parked,
        forall|q: i32|
            q != pid ==> (spec_deliver(h, pid).0.watchers.contains(q) == h.watchers.contains(q)
                && spec_deliver(h, pid).0.parked.contains(q) == h.parked.contains(q)),
{
    assert(spec_subscribe(spec_deliver(h, pid).0, pid).0.parked =~= h.parked);
}

} // verus!
