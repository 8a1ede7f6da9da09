//! The event channel: a mailbox that holds at most one signal.
//!
//! The mailbox is an `embassy_sync` channel of capacity one. A signal sent
//! while one is already waiting is dropped, so that the receiver learns
//! that an advance was asked for, never how often.

use vstd::prelude::*;
use embassy_sync::blocking_mutex::raw::CriticalSectionRawMutex;
use embassy_sync::channel::Channel;

verus! {

/// The number of signals that the mailbox can hold.
pub const CAPACITY: usize = 1;

/// An `embassy_sync` channel of unit messages with room for one, held as it
/// is. Proofs see nothing inside it: what it holds goes by the name
/// `queued`.
#[verifier::external_body]
pub struct SignalQueue {
    channel: Channel<CriticalSectionRawMutex, (), 1>,
}

/// The messages waiting in the queue, oldest first.
pub uninterp spec fn queued(queue: SignalQueue) -> Seq<()>;

/// Makes the queue with `Channel::new`. Trusted: the new channel holds no
/// message.
#[verifier::external_body]
fn queue_new() -> (queue: SignalQueue)
    ensures
        queued(queue) == Seq::<()>::empty(),
{
    SignalQueue { channel: Channel::new() }
}

/// Offers a message with `Channel::try_send`. Trusted: the channel takes the
/// message, at the back of its queue, if it holds fewer than one, and
/// otherwise stays as it is; the result tells which. Trusted too: the call
/// does not panic, since nobody else holds the channel's lock while the
/// queue is borrowed mutably.
#[verifier::external_body]
fn queue_try_send(queue: &mut SignalQueue) -> (accepted: bool)
    ensures
        accepted == (queued(*old(queue)).len() < 1),
        queued(*final(queue)) == if accepted {
            queued(*old(queue)).push(())
        } else {
            queued(*old(queue))
        },
    no_unwind
{
    queue.channel.try_send(()).is_ok()
}

/// Asks for a message with `Channel::try_receive`. Trusted: the channel hands
/// out its oldest message if it holds one, and otherwise stays as it is; the
/// result tells which. Trusted too: the call does not panic, for the same
/// reason as in `queue_try_send`.
#[verifier::external_body]
fn queue_try_receive(queue: &mut SignalQueue) -> (received: bool)
    ensures
        received == (queued(*old(queue)).len() > 0),
        queued(*final(queue)) == if received {
            queued(*old(queue)).drop_first()
        } else {
            queued(*old(queue))
        },
    no_unwind
{
    queue.channel.try_receive().is_ok()
}

/// The request to advance to the next pattern. It carries nothing.
#[derive(Clone, Copy, Debug, PartialEq, Eq, Structural)]
pub struct Signal;

/// What became of a signal that was sent.
#[derive(Clone, Copy, Debug, PartialEq, Eq, Structural)]
pub enum SendOutcome {
    /// The mailbox was empty and now holds the signal.
    Stored,
    /// The mailbox was full; the signal is lost.
    Dropped,
}

/// The number of signals waiting after one is sent to a mailbox that held
/// `pending`: one more if there was room, else as many as before.
pub open spec fn pending_after_send(pending: nat) -> nat {
    if pending < CAPACITY {
        pending + 1
    } else {
        pending
    }
}

/// What becomes of a signal sent to a mailbox that holds `pending`.
pub open spec fn send_outcome(pending: nat) -> SendOutcome {
    if pending < CAPACITY {
        SendOutcome::Stored
    } else {
        SendOutcome::Dropped
    }
}

/// The number of signals waiting after the receiver has asked for one.
pub open spec fn pending_after_receive(pending: nat) -> nat {
    if pending > 0 {
        (pending - 1) as nat
    } else {
        0
    }
}

/// What the receiver gets from a mailbox that holds `pending`.
pub open spec fn received(pending: nat) -> Option<Signal> {
    if pending > 0 {
        Some(Signal)
    } else {
        None
    }
}

/// The mailbox between the input monitor and the control loop.
pub struct EventChannel {
    queue: SignalQueue,
}

impl EventChannel {
    #[verifier::type_invariant]
    spec fn well_formed(self) -> bool {
        queued(self.queue).len() <= CAPACITY
    }

    /// The number of signals waiting: 0 or 1.
    pub closed spec fn pending(&self) -> nat {
        queued(self.queue).len()
    }

    /// An empty mailbox.
    pub fn new() -> (channel: EventChannel)
        ensures
            channel.pending() == 0,
    {
        EventChannel { queue: queue_new() }
    }

    /// Sends a signal without waiting. An empty mailbox stores it; a full one
    /// drops it and stays as it is.
    pub fn send(&mut self) -> (outcome: SendOutcome)
        ensures
            outcome == send_outcome(old(self).pending()),
            final(self).pending() == pending_after_send(old(self).pending()),
            final(self).pending() == 1,
    {
        proof {
            use_type_invariant(&*self);
        }
        if queue_try_send(&mut self.queue) {
            SendOutcome::Stored
        } else {
            SendOutcome::Dropped
        }
    }

    /// Takes the signal out of the mailbox, if it holds one, without waiting.
    pub fn try_receive(&mut self) -> (signal: Option<Signal>)
        ensures
            signal == received(old(self).pending()),
            final(self).pending() == pending_after_receive(old(self).pending()),
            final(self).pending() == 0,
    {
        proof {
            use_type_invariant(&*self);
        }
        if queue_try_receive(&mut self.queue) {
            Some(Signal)
        } else {
            None
        }
    }
}

/// The mailbox law. A mailbox holds no signal or one. A signal sent to a
/// full mailbox is dropped and changes nothing; one sent to an empty mailbox
/// is stored. However many signals were sent, the receiver gets one, and
/// that leaves the mailbox empty: it goes from empty to full to empty, and
/// never holds a second signal.
pub proof fn lemma_mailbox_round_trip(pending: nat)
    requires
        pending <= CAPACITY,
    ensures
        pending_after_send(pending) == 1,
        pending == 1 ==> send_outcome(pending) == SendOutcome::Dropped && pending_after_send(
            pending,
        ) == pending,
        pending == 0 ==> send_outcome(pending) == SendOutcome::Stored,
        pending_after_send(pending_after_send(pending)) == pending_after_send(pending),
        received(pending_after_send(pending)) == Some(Signal),
        pending_after_receive(pending_after_send(pending)) == 0,
        received(pending_after_receive(pending)) == None::<Signal>,
        pending_after_receive(pending) == 0,
{
}

} // verus!
