//! The handles of one client and its clones, and the one cancellation signal
//! that they share: the handle that is released last fires it.

use tokio::sync::oneshot::{Receiver, Sender};
use vstd::prelude::*;

verus! {

/// The sending half of a one-shot channel. Sending consumes it.
#[verifier::external_type_specification]
#[verifier::external_body]
#[verifier::reject_recursive_types(T)]
pub struct ExSender<T>(tokio::sync::oneshot::Sender<T>);

/// The receiving half of a one-shot channel.
#[verifier::external_type_specification]
#[verifier::external_body]
#[verifier::reject_recursive_types(T)]
pub struct ExReceiver<T>(tokio::sync::oneshot::Receiver<T>);

/// What a receiver yields where its sender is gone without having sent.
#[verifier::external_type_specification]
#[verifier::external_body]
pub struct ExRecvError(tokio::sync::oneshot::error::RecvError);

/// Makes the two halves of a cancellation signal.
///
/// Trusted: calls `tokio::sync::oneshot::channel`. Nothing is claimed of the
/// halves.
#[verifier::external_body]
fn signal_pair() -> (pair: (Sender<()>, Receiver<()>)) {
    tokio::sync::oneshot::channel::<()>()
}

/// Fires a cancellation signal.
///
/// Trusted: calls `tokio::sync::oneshot::Sender::send`, which does not wait and
/// does not panic, and drops its result: whether a receiver was still there to
/// take the signal makes no difference to the sender.
#[verifier::external_body]
fn send_signal(sender: Sender<()>) {
    let _ = sender.send(());
}

/// What can happen to a lineage.
#[derive(Clone, Copy, Debug, PartialEq, Eq, Structural)]
pub enum Change {
    /// A handle was cloned.
    Adopt,
    /// A handle was torn down.
    Release,
}

/// What a lineage is, as plain values.
pub ghost struct LineageView {
    /// The number of live handles.
    pub handles: nat,
    /// Whether the signal can still be fired.
    pub armed: bool,
}

/// The lineage once `change` has happened to `lineage`. Without handles nothing
/// changes any more, the count stops at `usize::MAX`, and the release of the
/// last handle disarms the signal.
pub open spec fn lineage_next(lineage: LineageView, change: Change) -> LineageView {
    match change {
        Change::Adopt => if 0 < lineage.handles < usize::MAX {
            LineageView { handles: lineage.handles + 1, armed: lineage.armed }
        } else {
            lineage
        },
        Change::Release => if lineage.handles > 0 {
            LineageView {
                handles: (lineage.handles - 1) as nat,
                armed: lineage.armed && lineage.handles != 1,
            }
        } else {
            lineage
        },
    }
}

/// Whether `change` fires the cancellation signal of `lineage`.
pub open spec fn fires(lineage: LineageView, change: Change) -> bool {
    change == Change::Release && lineage.handles == 1 && lineage.armed
}

/// The lineage once `changes` have happened in turn.
pub open spec fn lineage_after(start: LineageView, changes: Seq<Change>) -> LineageView
    decreases changes.len(),
{
    if changes.len() == 0 {
        start
    } else {
        lineage_next(lineage_after(start, changes.drop_last()), changes.last())
    }
}

/// How often the signal fired while `changes` happened in turn.
pub open spec fn times_fired(start: LineageView, changes: Seq<Change>) -> nat
    decreases changes.len(),
{
    if changes.len() == 0 {
        0
    } else {
        let earlier = changes.drop_last();
        let now: nat = if fires(lineage_after(start, earlier), changes.last()) {
            1
        } else {
            0
        };
        times_fired(start, earlier) + now
    }
}

/// The live handles of one client and its clones, with the sender of the
/// cancellation signal that they share.
#[derive(Debug)]
pub struct Lineage {
    handles: usize,
    sender: Option<Sender<()>>,
}

impl View for Lineage {
    type V = LineageView;

    closed spec fn view(&self) -> LineageView {
        LineageView { handles: self.handles as nat, armed: self.sender is Some }
    }
}

impl Lineage {
    /// The lineage of a client that was just constructed.
    pub open spec fn fresh() -> LineageView {
        LineageView { handles: 1, armed: true }
    }

    /// The lineage of a client that was just constructed: one handle and an
    /// armed signal, with the half of the signal that the renewal task listens on.
    pub fn new() -> (made: (Lineage, Receiver<()>))
        ensures
            made.0@ == Self::fresh(),
    {
        let (sender, receiver) = signal_pair();
        (Lineage { handles: 1, sender: Some(sender) }, receiver)
    }

    /// The number of live handles.
    pub fn handles(&self) -> (handles: usize)
        ensures
            handles == self@.handles,
    {
        self.handles
    }

    /// Whether the signal can still be fired.
    pub fn is_armed(&self) -> (armed: bool)
        ensures
            armed == self@.armed,
    {
        self.sender.is_some()
    }

    /// Counts a clone of a live handle. Refused, with nothing changed, where no
    /// handle is alive or the count is at its limit.
    pub fn adopt(&mut self) -> (adopted: bool)
        ensures
            adopted == (0 < old(self)@.handles < usize::MAX),
            final(self)@ == lineage_next(old(self)@, Change::Adopt),
    {
        if self.handles > 0 && self.handles < usize::MAX {
            self.handles = self.handles + 1;
            true
        } else {
            false
        }
    }

    /// Counts the teardown of a handle. The teardown of the last handle fires
    /// the cancellation signal, and no other does; the result says whether
    /// this one did.
    pub fn release(&mut self) -> (fired: bool)
        ensures
            fired == fires(old(self)@, Change::Release),
            final(self)@ == lineage_next(old(self)@, Change::Release),
    {
        if self.handles == 0 {
            false
        } else if self.handles > 1 {
            self.handles = self.handles - 1;
            false
        } else {
            self.handles = 0;
            match self.sender.take() {
                Some(sender) => {
                    send_signal(sender);
                    true
                },
                None => false,
            }
        }
    }
}

/// Whatever happens to a lineage that began with a handle and an armed signal,
/// the signal fires at most once: exactly when the last handle is released, and
/// never again.
pub proof fn lemma_fires_once_at_last_release(start: LineageView, changes: Seq<Change>)
    requires
        start.handles > 0,
        start.armed,
    ensures
        times_fired(start, changes) == if lineage_after(start, changes).handles == 0 {
            1nat
        } else {
            0nat
        },
        lineage_after(start, changes).armed == (lineage_after(start, changes).handles > 0),
    decreases changes.len(),
{
    if changes.len() > 0 {
        lemma_fires_once_at_last_release(start, changes.drop_last());
    }
}

/// A signal fires at most once, whatever the lineage it belongs to and whatever
/// happens to it.
pub proof fn lemma_fires_at_most_once(start: LineageView, changes: Seq<Change>)
    ensures
        times_fired(start, changes) <= 1,
        times_fired(start, changes) == 1 ==> !lineage_after(start, changes).armed,
    decreases changes.len(),
{
    if changes.len() > 0 {
        lemma_fires_at_most_once(start, changes.drop_last());
        lemma_disarmed_stays(start, changes.drop_last());
    }
}

/// A signal that is not armed is never armed again: a handle that is adopted or
/// released leaves it so.
proof fn lemma_disarmed_stays(start: LineageView, changes: Seq<Change>)
    ensures
        !start.armed ==> !lineage_after(start, changes).armed,
        times_fired(start, changes) >= 1 ==> !lineage_after(start, changes).armed,
    decreases changes.len(),
{
    if changes.len() > 0 {
        lemma_disarmed_stays(start, changes.drop_last());
    }
}

} // verus!
