//! The manager: owns one supervised child's side of the handshake and the
//! wait for that child's exit notification.
//!
//! The rendezvous hand-off is kept as explicit state — the payload and how
//! much of it the child's input has accepted — so that a retry after a
//! transient write failure resumes where the last attempt stopped and the
//! child observes the address exactly once, byte for byte. Each manager
//! waits on a channel of its own, whose sending half its owner subscribes
//! with the notification hub under the watched pid, so no other manager can
//! take this child's notification; the wait still admits only the
//! notification equal to the watched pid, every other value is ignored and
//! the wait goes on.

use vstd::prelude::*;
use crossbeam_channel::{Receiver, Sender};

verus! {

/// Milliseconds a discarded manager's owner pauses before respawning, so the
/// previous child's input and output handles finish draining and close.
pub const TEARDOWN_DELAY_MILLIS: u64 = 250;

/// Milliseconds between hand-off write attempts.
pub const HANDOFF_RETRY_MILLIS: u64 = 250;

/// Whether an exit notification ends the wait for `watched`.
pub open spec fn spec_watch_done(watched: i32, reaped: i32) -> bool {
    watched == reaped
}

/// Decides whether a received exit notification is the one the manager
/// waits for: exactly the notification equal to the watched pid, every other
/// value is ignored and waiting continues.
pub fn notification_ends_watch(watched: i32, reaped: i32) -> (done: bool)
    ensures
        done == spec_watch_done(watched, reaped),
{
    watched == reaped
}

/// Relies on crossbeam_channel::Receiver::recv: blocks until a value is
/// taken from the queue (None: every sender half is gone and the queue is
/// empty). Each queued value is taken by exactly one receiving call.
#[verifier::external_body]
fn recv_pid(rx: &Receiver<i32>) -> (r: Option<i32>) {
    rx.recv().ok()
}

/// One supervised child's manager, holding the receiving half of its own
/// notification channel. When a manager is discarded its owner pauses for
/// [`TEARDOWN_DELAY_MILLIS`] before spawning anew, so the previous child's
/// handles finish draining and close first.
pub struct Manager {
    rx: Receiver<i32>,
}

impl Manager {
    /// Relies on crossbeam_channel::unbounded: a fresh queue for this
    /// manager alone. The manager keeps the receiving half; the sending
    /// half is for its owner to subscribe with the notification hub under
    /// the watched pid.
    #[verifier::external_body]
    pub fn new() -> (Manager, Sender<i32>) {
        let (tx, rx) = crossbeam_channel::unbounded();
        (Manager { rx }, tx)
    }

    /// Blocks on this manager's own channel until the exit notification for
    /// `child` is observed, deciding each received value with
    /// [`notification_ends_watch`]: the wait ends with `Some(child)` — no
    /// other notification ends it — or with `None` once every sending half
    /// is gone (the subscription was removed and nothing more can arrive).
    pub fn watch(&self, child: i32) -> (r: Option<i32>)
        ensures
            r matches Some(p) ==> p == child,
    {
        // Bounded only to give the loop a measure; each round blocks for one
        // notification.
        let mut rounds: u64 = u64::MAX;
        while rounds > 0
            decreases rounds,
        {
            rounds = rounds - 1;
            match recv_pid(&self.rx) {
                Some(reaped) => {
                    if notification_ends_watch(child, reaped) {
                        return Some(reaped);
                    }
                },
                None => {
                    return None;
                },
            }
        }
        None
    }
}

/// The rendezvous hand-off to one child: the payload owed to the child's
/// input, and how much of it has been accepted so far.
pub struct Handoff {
    payload: Vec<u8>,
    sent: usize,
}

impl Handoff {
    /// The full payload the child is owed.
    pub closed spec fn payload_view(&self) -> Seq<u8> {
        self.payload@
    }

    /// How many bytes the child's input has accepted.
    pub closed spec fn sent_count(&self) -> int {
        self.sent as int
    }

    /// The hand-off never records more than the payload.
    pub open spec fn wf(&self) -> bool {
        0 <= self.sent_count() <= self.payload_view().len()
    }

    /// The bytes the child has observed so far: always a prefix of the
    /// payload, each byte delivered once.
    pub open spec fn delivered(&self) -> Seq<u8> {
        self.payload_view().take(self.sent_count())
    }

    /// A hand-off that owes the whole of `payload`.
    pub fn new(payload: Vec<u8>) -> (h: Handoff)
        ensures
            h.wf(),
            h.payload_view() == payload@,
            h.delivered() == Seq::<u8>::empty(),
    {
        let h = Handoff { payload, sent: 0 };
        proof {
            assert(h.delivered() =~= Seq::<u8>::empty());
        }
        h
    }

    /// The bytes still owed: a write attempt sends exactly these, so a retry
    /// never repeats a byte the child has already observed.
    pub fn pending(&self) -> (rest: Vec<u8>)
        requires
            self.wf(),
        ensures
            rest@ == self.payload_view().skip(self.sent_count()),
            self.delivered() + rest@ == self.payload_view(),
    {
        let tail = vstd::slice::slice_subrange(self.payload.as_slice(), self.sent, self.payload.len());
        let rest = vstd::slice::slice_to_vec(tail);
        proof {
            assert(rest@ =~= self.payload_view().skip(self.sent_count()));
            assert(self.delivered() + rest@ =~= self.payload_view());
        }
        rest
    }

    /// Records that the child's input accepted `n` more bytes of the pending
    /// suffix: the delivered prefix grows by exactly those bytes.
    pub fn advance(&mut self, n: usize)
        requires
            old(self).wf(),
            n <= old(self).payload_view().len() - old(self).sent_count(),
        ensures
            final(self).wf(),
            final(self).payload_view() == old(self).payload_view(),
            final(self).sent_count() == old(self).sent_count() + n,
            final(self).delivered() == old(self).delivered() + old(self).payload_view().skip(
                old(self).sent_count(),
            ).take(n as int),
    {
        let cap = self.payload.len();
        proof {
            assert(self.sent + n <= cap);
        }
        self.sent = self.sent + n;
        proof {
            assert(final(self).delivered() =~= old(self).delivered() + old(
                self,
            ).payload_view().skip(old(self).sent_count()).take(n as int));
        }
    }

    /// Whether the child has observed the whole payload.
    pub fn is_complete(&self) -> (done: bool)
        requires
            self.wf(),
        ensures
            done == (self.delivered() == self.payload_view()),
    {
        let done = self.sent == self.payload.len();
        proof {
            if self.sent_count() == self.payload_view().len() {
                assert(self.delivered() =~= self.payload_view());
            } else {
                assert(self.delivered().len() != self.payload_view().len());
            }
        }
        done
    }
}

/// Law (hand-off idempotence): whatever sequence of partial writes and
/// retries a hand-off goes through, what the child observes is a prefix of
/// the payload; once the hand-off is complete the child has observed the
/// payload exactly once, byte for byte, and nothing remains pending — a
/// further retry writes nothing.
pub proof fn lemma_handoff_exactly_once(h: Handoff)
    requires
        h.wf(),
    ensures
        h.delivered() == h.payload_view().take(h.delivered().len() as int),
        h.delivered().len() <= h.payload_view().len(),
        h.delivered() == h.payload_view() ==> h.payload_view().skip(h.sent_count())
            == Seq::<u8>::empty(),
{
    assert(h.delivered() == h.payload_view().take(h.delivered().len() as int));
    if h.delivered() == h.payload_view() {
        assert(h.sent_count() == h.payload_view().len());
        assert(h.payload_view().skip(h.sent_count()) =~= Seq::<u8>::empty());
    }
}

/// The label under which one child's output lines are re-emitted: the
/// executable's path in angle brackets.
pub fn output_prefix(executable: &str) -> (p: String)
    ensures
        p@ == "<"@ + executable@ + ">"@,
{
    let mut p = String::from_str("<");
    p.append(executable);
    p.append(">");
    proof {
        assert(p@ =~= "<"@ + executable@ + ">"@);
    }
    p
}

/// One drained line of a child's output as re-emitted under `prefix`.
pub fn labeled_line(prefix: &str, line: &str) -> (l: String)
    ensures
        l@ == prefix@ + ": "@ + line@,
{
    let mut l = String::from_str(prefix);
    l.append(": ");
    l.append(line);
    proof {
        assert(l@ =~= prefix@ + ": "@ + line@);
    }
    l
}

} // verus!
