//! Trusted wrappers around the unbounded channels of the
//! crossbeam-channel crate, used to hand build commands to worker
//! threads and collect their outputs. What a channel holds depends on
//! concurrently running threads, so no contract here speaks of contents.

use vstd::prelude::*;

verus! {

#[verifier::external_type_specification]
#[verifier::external_body]
#[verifier::reject_recursive_types(T)]
pub struct ExSender<T>(crossbeam_channel::Sender<T>);

#[verifier::external_type_specification]
#[verifier::external_body]
#[verifier::reject_recursive_types(T)]
pub struct ExReceiver<T>(crossbeam_channel::Receiver<T>);

/// Relies on crossbeam_channel::unbounded: a connected sender/receiver
/// pair over a new, unbounded multi-producer multi-consumer queue.
#[verifier::external_body]
pub(crate) fn channel_unbounded<T>() -> (crossbeam_channel::Sender<T>, crossbeam_channel::Receiver<
    T,
>) {
    crossbeam_channel::unbounded()
}

/// Relies on crossbeam_channel::Sender::send: queues the message, or
/// hands it back unchanged when every receiver of the channel is gone.
#[verifier::external_body]
pub(crate) fn channel_send<T>(sender: &crossbeam_channel::Sender<T>, value: T) -> (r: Result<
    (),
    T,
>)
    ensures
        (r matches Err(t) ==> t == value),
{
    sender.send(value).map_err(|e| e.0)
}

/// Relies on crossbeam_channel::Receiver::try_recv: a queued message if
/// one is currently available, `None` when the channel is empty or
/// disconnected; never blocks.
#[verifier::external_body]
pub(crate) fn channel_try_recv<T>(receiver: &crossbeam_channel::Receiver<T>) -> Option<T> {
    receiver.try_recv().ok()
}

/// Relies on the Clone impl of crossbeam_channel::Sender: another handle
/// to the same channel.
#[verifier::external_body]
pub(crate) fn clone_sender<T>(sender: &crossbeam_channel::Sender<T>) -> crossbeam_channel::Sender<
    T,
> {
    sender.clone()
}

/// Relies on the Clone impl of crossbeam_channel::Receiver: another
/// handle to the same channel.
#[verifier::external_body]
pub(crate) fn clone_receiver<T>(
    receiver: &crossbeam_channel::Receiver<T>,
) -> crossbeam_channel::Receiver<T> {
    receiver.clone()
}

} // verus!
