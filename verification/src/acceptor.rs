//! The lazy incoming-connection sequence over a bound listener.
//!
//! Each time the sequence is polled with no accept-and-handshake
//! operation in flight, it starts exactly one and remembers it. Later
//! polls check only that operation: still pending yields nothing, a
//! completed handshake yields its socket, and a failed attempt is dropped
//! so the next poll starts a fresh accept. At most one operation is ever
//! in flight, and the sequence never terminates on its own.
//!
//! The embedding owns the listener and the pending operation; this type
//! is the slot that enforces the discipline. The socket type `S` is the
//! embedding's own and is only carried through.

use vstd::prelude::*;

verus! {

/// What the embedding observed of the one in-flight accept-and-handshake
/// operation when the sequence was polled.
#[derive(Clone, Debug, PartialEq, Eq)]
pub enum AcceptProgress<S> {
    /// The operation has not completed yet.
    Pending,
    /// The operation completed: a handshake-completed socket, or nothing
    /// when the accept or the handshake failed.
    Complete(Option<S>),
}

/// What one poll of the sequence yields.
#[derive(Clone, Debug, PartialEq, Eq)]
pub enum PollOutcome<S> {
    /// No operation was in flight: exactly one new accept-and-handshake
    /// operation must now be started and polled next time.
    Started,
    /// The in-flight operation is still pending; nothing is yielded.
    StillPending,
    /// The in-flight operation completed its handshake: the sequence
    /// yields this socket, and the slot is free again.
    Accepted(S),
    /// The in-flight operation failed: nothing is yielded, the slot is
    /// free again, and the sequence goes on — a dead attempt is skipped,
    /// never terminal.
    AttemptFailed,
}

/// The accept sequence's single in-flight slot.
#[derive(Clone, Copy, Debug, PartialEq, Eq, Structural)]
pub struct Acceptor {
    /// Whether an accept-and-handshake operation is currently in flight.
    pub in_flight: bool,
}

impl Acceptor {
    /// A fresh sequence over a newly bound listener: nothing in flight.
    pub fn new() -> (a: Self)
        ensures
            !a.in_flight,
    {
        Acceptor { in_flight: false }
    }

    /// One poll of the sequence. The embedding reports what it observed
    /// of the in-flight operation — exactly when there is one, so a
    /// second operation can never be started over a pending one.
    ///
    /// A new operation is started only from an empty slot; a completed
    /// or failed operation empties it. Sockets are therefore yielded one
    /// per completed handshake, in completion order, and a failure skips
    /// one attempt without ending the sequence.
    pub fn poll<S>(&mut self, observed: Option<AcceptProgress<S>>) -> (r: PollOutcome<S>)
        requires
            old(self).in_flight <==> observed is Some,
        ensures
            r is Started ==> !old(self).in_flight,
            !old(self).in_flight ==> r is Started && final(self).in_flight,
            observed matches Some(progress) ==> match progress {
                AcceptProgress::Pending => r is StillPending && final(self).in_flight,
                AcceptProgress::Complete(done) => {
                    &&& !final(self).in_flight
                    &&& done matches Some(sock) ==> r == PollOutcome::Accepted(sock)
                    &&& done is None ==> r is AttemptFailed
                },
            },
    {
        match observed {
            None => {
                self.in_flight = true;
                PollOutcome::Started
            },
            Some(AcceptProgress::Pending) => PollOutcome::StillPending,
            Some(AcceptProgress::Complete(done)) => {
                self.in_flight = false;
                match done {
                    Some(sock) => PollOutcome::Accepted(sock),
                    None => PollOutcome::AttemptFailed,
                }
            },
        }
    }
}

/// The sockets an accept sequence yields for a run of completed
/// attempts: one per successful handshake, in completion order.
pub open spec fn somes_of<S>(completions: Seq<Option<S>>) -> Seq<S>
    decreases completions.len(),
{
    if completions.len() == 0 {
        Seq::empty()
    } else {
        let rest = somes_of(completions.drop_last());
        match completions.last() {
            Some(sock) => rest.push(sock),
            None => rest,
        }
    }
}

/// Drives the sequence through a run of attempts, each observed once as
/// pending and then complete, and collects what it yields: exactly the
/// sockets of the successful handshakes, in completion order — failed
/// attempts are skipped, and no attempt overlaps another.
pub fn drain_completions<S>(acceptor: &mut Acceptor, completions: Vec<Option<S>>) -> (socks: Vec<
    S,
>)
    requires
        !old(acceptor).in_flight,
    ensures
        !final(acceptor).in_flight,
        socks@ == somes_of(completions@),
{
    let ghost all = completions@;
    let mut remaining = completions;
    let mut socks: Vec<S> = Vec::new();
    let ghost mut done: int = 0;
    while remaining.len() > 0
        invariant
            0 <= done <= all.len(),
            remaining@ == all.skip(done),
            socks@ == somes_of(all.take(done)),
            !acceptor.in_flight,
        decreases remaining@.len(),
    {
        let completion = remaining.remove(0);
        proof {
            assert(completion == all[done]);
            assert(remaining@ =~= all.skip(done + 1));
            assert(all.take(done + 1).drop_last() =~= all.take(done));
            assert(all.take(done + 1).last() == all[done]);
        }
        let _started = acceptor.poll::<S>(None);
        let _pending = acceptor.poll(Some(AcceptProgress::<S>::Pending));
        match acceptor.poll(Some(AcceptProgress::Complete(completion))) {
            PollOutcome::Accepted(sock) => socks.push(sock),
            _ => (),
        }
        proof {
            done = done + 1;
        }
    }
    proof {
        assert(all.take(done) =~= all);
    }
    socks
}

/// Every attempt whose handshake completed yields its socket.
proof fn lemma_somes_contains<S>(completions: Seq<Option<S>>, i: int)
    requires
        0 <= i < completions.len(),
        completions[i] is Some,
    ensures
        somes_of(completions).contains(completions[i]->0),
    decreases completions.len(),
{
    if i == completions.len() - 1 {
        let rest = somes_of(completions.drop_last());
        assert(somes_of(completions)[rest.len() as int] == completions[i]->0);
    } else {
        lemma_somes_contains(completions.drop_last(), i);
        assert(completions.drop_last()[i] == completions[i]);
        let rest = somes_of(completions.drop_last());
        let j = choose|j: int| 0 <= j < rest.len() && rest[j] == completions[i]->0;
        assert(somes_of(completions)[j] == completions[i]->0);
    }
}

/// A failed accept attempt is skipped, never terminal: any later attempt
/// whose handshake completes still yields its socket.
pub proof fn lemma_failed_attempt_skipped<S>(completions: Seq<Option<S>>, failed: int, later: int)
    requires
        0 <= failed < later < completions.len(),
        completions[failed] is None,
        completions[later] is Some,
    ensures
        somes_of(completions).contains(completions[later]->0),
{
    lemma_somes_contains(completions, later);
}

} // verus!
