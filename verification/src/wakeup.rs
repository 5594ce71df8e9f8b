use std::sync::Arc;

use async_channel::{Receiver, Sender};
use vstd::prelude::*;

verus! {

#[verifier::external_type_specification]
#[verifier::external_body]
#[verifier::reject_recursive_types(T)]
pub struct ExSender<T>(Sender<T>);

#[verifier::external_type_specification]
#[verifier::external_body]
#[verifier::reject_recursive_types(T)]
pub struct ExReceiver<T>(Receiver<T>);

/// Lets verified code clone an `async_channel::Receiver` through
/// `<Receiver<T> as Clone>::clone`, which returns another handle on the same
/// channel. Trusted: nothing is stated of the result.
pub assume_specification<T>[ <Receiver<T> as Clone>::clone ](receiver: &Receiver<T>) -> Receiver<
    T,
>;

/// The number of messages the channel behind `receiver` can hold, as
/// `async_channel::Receiver::capacity` reports it: fixed when the channel is
/// made, `None` for an unbounded channel.
pub uninterp spec fn receiver_capacity(receiver: Receiver<()>) -> Option<usize>;

/// Whether `sender` and `receiver` are handles on one channel, so that
/// what the sender sends the receiver receives. It holds of the two halves
/// that `async_channel::bounded` returns, which share one channel.
pub uninterp spec fn same_channel(sender: Sender<()>, receiver: Receiver<()>) -> bool;

/// Creates a channel that holds at most `cap` messages by calling
/// `async_channel::bounded`, which panics on a zero capacity. Trusted: the
/// receiver's channel has capacity `cap` (the crate's source builds a queue
/// bounded by `cap`, whose `capacity()` is `Some(cap)`), and the sender and
/// receiver share that one channel (both hold the same `Arc<Channel>`);
/// nothing else is stated of the result, and in particular not that it is
/// empty.
#[verifier::external_body]
fn bounded_channel(cap: usize) -> (channel: (Sender<()>, Receiver<()>))
    requires
        cap > 0,
    ensures
        receiver_capacity(channel.1) == Some(cap),
        same_channel(channel.0, channel.1),
{
    async_channel::bounded(cap)
}

/// Offers a signal to the channel without waiting, by calling
/// `async_channel::Sender::try_send`. Trusted: nothing is stated; whether
/// the signal was queued (or dropped because one is pending or the channel
/// is closed) depends on the channel's shared state.
#[verifier::external_body]
fn offer_signal(sender: &Sender<()>) {
    let _ = sender.try_send(());
}

/// A wake-up signal from a native surface's renderer to the UI thread.
/// It holds at most one pending signal, so signals sent before the UI thread
/// wakes coalesce into one.
#[derive(Clone)]
pub struct NativeWakeup {
    pub sender: Arc<Sender<()>>,
    pub receiver: Receiver<()>,
}

impl NativeWakeup {
    /// A wake-up whose sender and receiver share one channel that holds a
    /// single pending signal.
    pub fn new() -> (wakeup: Self)
        ensures
            receiver_capacity(wakeup.receiver) == Some(1usize),
            same_channel(*wakeup.sender, wakeup.receiver),
    {
        let (sender, receiver) = bounded_channel(1);
        NativeWakeup { sender: Arc::new(sender), receiver }
    }

    /// Signals the UI thread; a signal already pending absorbs this one.
    pub fn signal(&self) {
        offer_signal(&self.sender);
    }
}

} // verus!
