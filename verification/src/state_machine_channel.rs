//! A one-shot channel driven by one four-state word.
//!
//! The word moves `Empty` to `Writing` when a send claims the channel,
//! `Writing` to `Ready` once the message is in place, and `Ready` to
//! `Reading` when a receive claims the message. Each claim is a
//! compare-and-swap, so of two racing sends or two racing receives exactly
//! one wins; the loser is a usage violation the protocol punishes with a
//! panic, excluded here by precondition and surfaced by the host.

use vstd::prelude::*;

verus! {

/// The phase of the channel.
#[derive(Clone, Copy, Debug, PartialEq, Eq, Structural)]
pub enum State {
    /// Nothing sent yet.
    Empty,
    /// A send holds the claim and is writing the message.
    Writing,
    /// The message is in place, not yet claimed by a receive.
    Ready,
    /// A receive holds the claim and is taking the message.
    Reading,
}

/// The claim step of a send: the compare-and-swap from `Empty` to
/// `Writing`. `None` means another send got there first.
pub fn send_claim_step(s: State) -> (r: Option<State>)
    ensures
        r is Some <==> s is Empty,
        r is Some ==> r->0 is Writing,
{
    match s {
        State::Empty => Some(State::Writing),
        _ => None,
    }
}

/// The claim step of a receive: the compare-and-swap from `Ready` to
/// `Reading`. `None` means no message is ready, or another receive got
/// there first.
pub fn receive_claim_step(s: State) -> (r: Option<State>)
    ensures
        r is Some <==> s is Ready,
        r is Some ==> r->0 is Reading,
{
    match s {
        State::Ready => Some(State::Reading),
        _ => None,
    }
}

/// A one-shot channel over an owned slot, driven by the state word.
pub struct StateChannel<T> {
    message: Option<T>,
    state: State,
}

impl<T> StateChannel<T> {
    /// The state word.
    pub closed spec fn state(&self) -> State {
        self.state
    }

    /// The message slot.
    pub closed spec fn message(&self) -> Option<T> {
        self.message
    }

    /// The slot holds a message exactly in the `Ready` phase.
    pub open spec fn wf(&self) -> bool {
        self.message() is Some <==> self.state() is Ready
    }

    /// A fresh channel, in the `Empty` phase.
    pub fn new() -> (c: Self)
        ensures
            c.wf(),
            c.state() is Empty,
    {
        StateChannel { message: None, state: State::Empty }
    }

    /// Send the one message: claim the channel, write the message, then
    /// publish it as `Ready`. A send that loses the claim is the violation
    /// the protocol punishes with a panic, excluded here.
    pub fn send(&mut self, message: T)
        requires
            old(self).wf(),
            old(self).state() is Empty,
        ensures
            final(self).wf(),
            final(self).state() is Ready,
            final(self).message() == Some(message),
    {
        let claimed = send_claim_step(self.state);
        self.state = claimed.unwrap();
        self.message = Some(message);
        self.state = State::Ready;
    }

    /// Whether a message is ready to receive.
    pub fn is_ready(&self) -> (r: bool)
        ensures
            r == (self.state() is Ready),
    {
        matches!(self.state, State::Ready)
    }

    /// Receive the message: claim it, then take it out of the slot. A
    /// receive that loses the claim — no message ready, or another receive
    /// won — is the violation the protocol punishes with a panic, excluded
    /// here.
    pub fn receive(&mut self) -> (m: T)
        requires
            old(self).wf(),
            old(self).state() is Ready,
        ensures
            final(self).wf(),
            final(self).state() is Reading,
            final(self).message() is None,
            old(self).message() == Some(m),
    {
        let claimed = receive_claim_step(self.state);
        self.state = claimed.unwrap();
        let message = self.message.take();
        message.unwrap()
    }
}

} // verus!
