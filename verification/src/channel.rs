//! A one-shot channel: one message slot and two flags.
//!
//! `in_use` is swapped `true` by the first send and never cleared, so a
//! second send is a usage violation (the original aborts the sending call);
//! `ready` is raised once the message is in place and swapped back `false`
//! by the receive that consumes it. Receiving before the message is ready
//! is likewise a violation. Both violating inputs are excluded here by
//! precondition; a host exposes them as the panics the protocol calls for.
//! An unreceived message is simply dropped with the channel.

use vstd::prelude::*;

verus! {

/// A one-shot channel over an owned slot.
pub struct Channel<T> {
    message: Option<T>,
    in_use: bool,
    ready: bool,
}

impl<T> Channel<T> {
    /// The message slot.
    pub closed spec fn message(&self) -> Option<T> {
        self.message
    }

    /// Whether a send has claimed the channel.
    pub closed spec fn in_use(&self) -> bool {
        self.in_use
    }

    /// Whether a message is in place and not yet consumed.
    pub closed spec fn ready(&self) -> bool {
        self.ready
    }

    /// The slot holds a message exactly while `ready`, and only a claimed
    /// channel can be ready.
    pub open spec fn wf(&self) -> bool {
        &&& (self.message() is Some <==> self.ready())
        &&& (self.ready() ==> self.in_use())
    }

    /// A fresh channel: unclaimed, not ready, slot empty.
    pub fn new() -> (c: Self)
        ensures
            c.wf(),
            !c.in_use(),
            !c.ready(),
    {
        Channel { message: None, in_use: false, ready: false }
    }

    /// Send the one message: claim the channel, put the message in place,
    /// then raise `ready`. Sending on a claimed channel is the violation
    /// the protocol punishes with a panic, excluded here.
    pub fn send(&mut self, message: T)
        requires
            old(self).wf(),
            !old(self).in_use(),
        ensures
            final(self).wf(),
            final(self).in_use(),
            final(self).ready(),
            final(self).message() == Some(message),
    {
        self.in_use = true;
        self.message = Some(message);
        self.ready = true;
    }

    /// Whether a message is ready to receive.
    pub fn is_ready(&self) -> (r: bool)
        ensures
            r == self.ready(),
    {
        self.ready
    }

    /// Receive the message: swap `ready` back down and take the message
    /// out. Receiving with no message ready — never sent, or already
    /// consumed — is the violation the protocol punishes with a panic,
    /// excluded here.
    pub fn receive(&mut self) -> (m: T)
        requires
            old(self).wf(),
            old(self).ready(),
        ensures
            final(self).wf(),
            final(self).in_use(),
            !final(self).ready(),
            final(self).message() is None,
            old(self).message() == Some(m),
    {
        self.ready = false;
        let message = self.message.take();
        message.unwrap()
    }
}

} // verus!
