//! The channels of the `crossbeam_channel` crate, as the library uses them:
//! audio frames handed from capture to the consumer and reply events handed
//! from a generation to its poller.

use vstd::prelude::*;
use crate::audio::frame::AudioFrame;

verus! {

/// The sending end of a `crossbeam_channel` channel.
#[verifier::external_type_specification]
#[verifier::external_body]
#[verifier::reject_recursive_types(T)]
pub struct ExSender<T>(crossbeam_channel::Sender<T>);

/// The receiving end of a `crossbeam_channel` channel.
#[verifier::external_type_specification]
#[verifier::external_body]
#[verifier::reject_recursive_types(T)]
pub struct ExReceiver<T>(crossbeam_channel::Receiver<T>);

/// What an attempt to receive without waiting gave.
pub enum Received<T> {
    /// The oldest message in the channel.
    Message(T),
    /// The channel holds no message now.
    Empty,
    /// The channel holds no message and every sender is gone.
    Disconnected,
}

/// What an attempt to send without waiting gave.
#[derive(Debug, Clone, Copy, PartialEq, Eq)]
pub enum Sent {
    /// The message is in the channel.
    Accepted,
    /// The channel was full; the message was not sent.
    Full,
    /// Every receiver is gone; the message was not sent.
    Disconnected,
}

/// `crossbeam_channel::Receiver::try_recv`, with its error variants told
/// apart. Nothing is stated of the outcome: it depends on what other threads
/// sent and received.
#[verifier::external_body]
pub(crate) fn try_receive<T>(receiver: &crossbeam_channel::Receiver<T>) -> Received<T> {
    match receiver.try_recv() {
        Ok(message) => Received::Message(message),
        Err(crossbeam_channel::TryRecvError::Empty) => Received::Empty,
        Err(crossbeam_channel::TryRecvError::Disconnected) => Received::Disconnected,
    }
}

/// `crossbeam_channel::Sender::try_send`, with its error variants told apart
/// (the refused message is dropped). Nothing is stated of the outcome: it
/// depends on what other threads received.
#[verifier::external_body]
pub(crate) fn try_deliver<T>(sender: &crossbeam_channel::Sender<T>, message: T) -> Sent {
    match sender.try_send(message) {
        Ok(()) => Sent::Accepted,
        Err(crossbeam_channel::TrySendError::Full(_)) => Sent::Full,
        Err(crossbeam_channel::TrySendError::Disconnected(_)) => Sent::Disconnected,
    }
}

/// The capacity of the channel that a sending end of audio frames belongs
/// to, as `crossbeam_channel::Sender::capacity` reports it (`Some` of the
/// capacity for a bounded channel).
pub uninterp spec fn frame_sender_capacity(sender: crossbeam_channel::Sender<AudioFrame>) -> Option<usize>;

/// The capacity of the channel that a receiving end of audio frames belongs
/// to, as `crossbeam_channel::Receiver::capacity` reports it.
pub uninterp spec fn frame_receiver_capacity(receiver: crossbeam_channel::Receiver<AudioFrame>) -> Option<usize>;

/// `crossbeam_channel::bounded` for audio frames: a channel that holds up to
/// `capacity` frames (none for `capacity == 0`, where a send waits for a
/// receiver). Claimed: both ends report `capacity` as the channel's capacity.
/// The capacity must leave room for the channel's internal index arithmetic,
/// which panics beyond a quarter of the address range. Nothing more is stated
/// of the two ends.
#[verifier::external_body]
pub(crate) fn bounded_frame_channel(capacity: usize) -> (r: (
    crossbeam_channel::Sender<AudioFrame>,
    crossbeam_channel::Receiver<AudioFrame>,
))
    requires
        capacity < usize::MAX / 4,
    ensures
        frame_sender_capacity(r.0) == Some(capacity),
        frame_receiver_capacity(r.1) == Some(capacity),
{
    crossbeam_channel::bounded(capacity)
}

/// `Clone` of `crossbeam_channel::Receiver` for audio frames: another
/// receiving end of the same channel. Claimed: it reports the same capacity.
/// That it reads the same channel is not stated: the channel is opaque here.
#[verifier::external_body]
pub(crate) fn clone_frame_receiver(receiver: &crossbeam_channel::Receiver<AudioFrame>) -> (r:
    crossbeam_channel::Receiver<AudioFrame>)
    ensures
        frame_receiver_capacity(r) == frame_receiver_capacity(*receiver),
{
    receiver.clone()
}

} // verus!
