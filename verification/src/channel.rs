//! The typed control channel: multi-producer, single-consumer, non-blocking
//! on both ends. std's mpsc queue does the carrying, behind trusted items;
//! the consumer's disconnect latch — report the hang-up once, then treat
//! every later poll as empty without touching the channel — is verified.

use vstd::prelude::*;

use std::sync::mpsc::{Receiver, Sender, TryRecvError};

use crate::session::Input;

verus! {

#[verifier::external_type_specification]
#[verifier::external_body]
#[verifier::reject_recursive_types(T)]
pub struct ExSender<T>(Sender<T>);

#[verifier::external_type_specification]
#[verifier::external_body]
#[verifier::reject_recursive_types(T)]
pub struct ExReceiver<T>(Receiver<T>);

/// What one non-blocking poll of the channel found.
pub enum Poll<T> {
    /// A queued value, removed from the channel.
    Received(T),
    /// Nothing queued right now.
    Empty,
    /// Every producer is gone and the queue is drained.
    Disconnected,
}

/// Relies on `std::sync::mpsc::channel`: the producer and consumer ends of
/// a fresh unbounded queue.
#[verifier::external_body]
fn mpsc_channel<T>() -> (Sender<T>, Receiver<T>) {
    std::sync::mpsc::channel()
}

/// Relies on `Sender::send`: queues the value without blocking; reports
/// whether the consumer end still exists. Which answer comes depends on the
/// other threads, so nothing more can be promised.
#[verifier::external_body]
fn mpsc_send<T>(sender: &Sender<T>, value: T) -> (ok: bool) {
    sender.send(value).is_ok()
}

/// Relies on `Sender::clone`: another producer end of the same queue.
#[verifier::external_body]
fn mpsc_sender_clone<T>(sender: &Sender<T>) -> (r: Sender<T>) {
    sender.clone()
}

/// Relies on `Receiver::try_recv`: never blocks; tells a queued value, an
/// empty queue and hung-up producers apart. What comes back depends on the
/// other threads, so nothing more can be promised.
#[verifier::external_body]
fn mpsc_try_recv<T>(receiver: &Receiver<T>) -> (r: Poll<T>) {
    match receiver.try_recv() {
        Ok(value) => Poll::Received(value),
        Err(TryRecvError::Empty) => Poll::Empty,
        Err(TryRecvError::Disconnected) => Poll::Disconnected,
    }
}

/// A producer end of a control channel. Clones freely; every clone feeds
/// the same consumer.
#[verifier::reject_recursive_types(T)]
pub struct ChannelSender<T> {
    sender: Sender<T>,
}

impl<T> ChannelSender<T> {
    /// Queue a value for the consumer without blocking. `false` means the
    /// consumer end is gone and the value was dropped.
    pub fn send(&self, value: T) -> bool {
        mpsc_send(&self.sender, value)
    }
}

impl<T> Clone for ChannelSender<T> {
    fn clone(&self) -> Self {
        ChannelSender { sender: mpsc_sender_clone(&self.sender) }
    }
}

/// The consumer end of a control channel, with the disconnect latch: after
/// the hang-up has been reported once, every later poll is answered empty
/// without touching the channel again.
#[verifier::reject_recursive_types(T)]
pub struct ControlChannel<T> {
    receiver: Receiver<T>,
    disconnected: bool,
}

impl<T> ControlChannel<T> {
    /// Whether the hang-up has been reported already.
    pub closed spec fn spec_disconnected(self) -> bool {
        self.disconnected
    }

    /// A fresh channel: the producer end and the consumer end.
    pub fn new() -> (r: (ChannelSender<T>, ControlChannel<T>))
        ensures
            !r.1.spec_disconnected(),
    {
        let (sender, receiver) = mpsc_channel();
        (ChannelSender { sender }, ControlChannel { receiver, disconnected: false })
    }

    /// One non-blocking poll. The hang-up is reported exactly once: it can
    /// only come while the latch is clear, it sets the latch, and under a
    /// set latch the channel is left alone and the answer is `Empty`.
    pub fn poll(&mut self) -> (r: Poll<T>)
        ensures
            old(self).spec_disconnected() ==> (r is Empty && final(self).spec_disconnected()),
            r is Disconnected ==> !old(self).spec_disconnected(),
            r is Disconnected ==> final(self).spec_disconnected(),
            final(self).spec_disconnected() == (old(self).spec_disconnected() || r is Disconnected),
    {
        if self.disconnected {
            return Poll::Empty;
        }
        let polled = mpsc_try_recv(&self.receiver);
        if let Poll::Disconnected = polled {
            self.disconnected = true;
        }
        polled
    }
}

impl ControlChannel<Input> {
    /// The coordinator's one poll per audio block, as the state machine's
    /// input: a value as itself, an empty queue as `Quiet`, and the hang-up
    /// as `ChannelClosed` once and `Quiet` from then on.
    pub fn poll_input(&mut self) -> (r: Input)
        ensures
            old(self).spec_disconnected() ==> (r is Quiet && final(self).spec_disconnected()),
            final(self).spec_disconnected() ==> (old(self).spec_disconnected()
                || r is ChannelClosed),
    {
        match self.poll() {
            Poll::Received(input) => input,
            Poll::Empty => Input::Quiet,
            Poll::Disconnected => Input::ChannelClosed,
        }
    }
}

} // verus!
