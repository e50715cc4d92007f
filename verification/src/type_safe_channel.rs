//! A one-shot channel made misuse-proof by types.
//!
//! Splitting the channel yields one [`Sender`] and one [`Receiver`], each
//! consumed by its single operation, so a second send or a second receive
//! cannot even be written — where the flag-based channel punishes misuse at
//! run time, this one rules it out at compile time. The sender publishes
//! the message under the `ready` flag and the host then unparks the
//! receiving thread; a receiver that finds the flag down parks until it is
//! woken, so its claim is excluded here only until the message is ready.

use core::marker::PhantomData;
use vstd::prelude::*;

verus! {

/// The shared slot of the channel: one message and the `ready` flag.
pub struct TypeSafeChannel<T> {
    message: Option<T>,
    ready: bool,
}

/// The one right to send on a channel; consumed by the send.
pub struct Sender<T> {
    marker: PhantomData<T>,
}

/// The one right to receive on a channel; consumed by the receive. It is
/// bound to the thread that split the channel, which is the thread the
/// host unparks.
pub struct Receiver<T> {
    marker: PhantomData<T>,
}

impl<T> TypeSafeChannel<T> {
    /// The message slot.
    pub closed spec fn message(&self) -> Option<T> {
        self.message
    }

    /// Whether the message is in place.
    pub closed spec fn ready(&self) -> bool {
        self.ready
    }

    /// The slot holds a message exactly while `ready` is up.
    pub open spec fn wf(&self) -> bool {
        self.message() is Some <==> self.ready()
    }

    /// A fresh channel: empty, flag down.
    pub fn new() -> (c: Self)
        ensures
            c.wf(),
            !c.ready(),
    {
        TypeSafeChannel { message: None, ready: false }
    }

    /// Reset the channel and hand out the one sender and the one receiver
    /// for this round.
    pub fn split(&mut self) -> (r: (Sender<T>, Receiver<T>))
        ensures
            final(self).wf(),
            !final(self).ready(),
            final(self).message() is None,
    {
        self.message = None;
        self.ready = false;
        (Sender { marker: PhantomData }, Receiver { marker: PhantomData })
    }
}

impl<T> Sender<T> {
    /// Send the one message: write it, raise the flag, and surrender the
    /// right to send. The host then unparks the receiving thread.
    pub fn send(self, channel: &mut TypeSafeChannel<T>, message: T)
        requires
            old(channel).wf(),
        ensures
            final(channel).wf(),
            final(channel).ready(),
            final(channel).message() == Some(message),
    {
        channel.message = Some(message);
        channel.ready = true;
    }
}

impl<T> Receiver<T> {
    /// Whether the message is ready to receive.
    pub fn is_ready(&self, channel: &TypeSafeChannel<T>) -> (r: bool)
        ensures
            r == channel.ready(),
    {
        channel.ready
    }

    /// Receive the message, surrendering the right to receive. A receiver
    /// that finds the flag down parks until the sender's wake; the claim
    /// here is taken once the message is ready.
    pub fn receive(self, channel: &mut TypeSafeChannel<T>) -> (m: T)
        requires
            old(channel).wf(),
            old(channel).ready(),
        ensures
            final(channel).wf(),
            !final(channel).ready(),
            final(channel).message() is None,
            old(channel).message() == Some(m),
    {
        channel.ready = false;
        let message = channel.message.take();
        message.unwrap()
    }
}

} // verus!
