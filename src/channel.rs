//! The position channel: an unbounded first-in first-out handoff of position
//! samples from one tracking service to one register writer, over a kanal
//! channel. Nothing here bounds the queue: a slow consumer lets it grow.

use vstd::prelude::*;
use crate::estimator::PositionSample;
use crate::writer::WriterEvent;

verus! {

#[verifier::external_type_specification]
#[verifier::external_body]
#[verifier::reject_recursive_types(T)]
pub struct ExKanalSender<T>(kanal::Sender<T>);

#[verifier::external_type_specification]
#[verifier::external_body]
#[verifier::reject_recursive_types(T)]
pub struct ExKanalReceiver<T>(kanal::Receiver<T>);

/// The longest receive wait accepted, in milliseconds (one hour): it keeps
/// the receive deadline representable.
pub const MAX_RECV_WAIT_MS: u64 = 3_600_000;

/// Relies on kanal::unbounded: a new channel without capacity limit, whose
/// two ends are connected.
#[verifier::external_body]
fn kanal_unbounded() -> (PositionSenderEnd, PositionReceiverEnd) {
    let (tx, rx) = kanal::unbounded();
    (PositionSenderEnd { tx }, PositionReceiverEnd { rx })
}

/// Relies on kanal::Sender::send: the sample is queued, or an error when the
/// channel is closed or its receiving side is gone.
#[verifier::external_body]
fn kanal_send(tx: &kanal::Sender<PositionSample>, sample: PositionSample) -> (sent: bool) {
    tx.send(sample).is_ok()
}

/// Relies on kanal::Receiver::recv_timeout: the oldest queued sample, or a
/// timeout, or the report that the channel is closed.
#[verifier::external_body]
fn kanal_recv_timeout(rx: &kanal::Receiver<PositionSample>, millis: u64) -> (r: ReceiveOutcome)
    requires
        millis <= MAX_RECV_WAIT_MS,
{
    match rx.recv_timeout(std::time::Duration::from_millis(millis)) {
        Ok(sample) => ReceiveOutcome::Sample(sample),
        Err(kanal::ReceiveErrorTimeout::Timeout) => ReceiveOutcome::TimedOut,
        Err(kanal::ReceiveErrorTimeout::Closed) => ReceiveOutcome::Closed,
        Err(kanal::ReceiveErrorTimeout::SendClosed) => ReceiveOutcome::Closed,
    }
}

/// The producing end of a position channel.
pub struct PositionSenderEnd {
    tx: kanal::Sender<PositionSample>,
}

/// The consuming end of a position channel.
pub struct PositionReceiverEnd {
    rx: kanal::Receiver<PositionSample>,
}

/// What one bounded receive brought.
#[derive(Debug, Clone, Copy, PartialEq, Eq, Structural)]
pub enum ReceiveOutcome {
    Sample(PositionSample),
    TimedOut,
    Closed,
}

/// A new unbounded position channel: samples sent on the first end arrive on
/// the second in the order they were sent.
pub fn position_channel() -> (PositionSenderEnd, PositionReceiverEnd) {
    kanal_unbounded()
}

impl PositionSenderEnd {
    /// Queues `sample` without blocking. `false` when the receiving side is
    /// gone; the sample is then dropped and the caller goes on.
    pub fn send(&self, sample: PositionSample) -> (sent: bool) {
        kanal_send(&self.tx, sample)
    }
}

impl PositionReceiverEnd {
    /// Waits at most `millis` milliseconds for the oldest queued sample.
    pub fn recv_timeout(&self, millis: u64) -> (r: ReceiveOutcome)
        requires
            millis <= MAX_RECV_WAIT_MS,
    {
        kanal_recv_timeout(&self.rx, millis)
    }
}

/// What a receive outcome tells the register writer: a sample is written, a
/// timeout or a closed channel is an empty poll.
pub fn writer_event_of(outcome: ReceiveOutcome) -> (e: WriterEvent)
    ensures
        outcome matches ReceiveOutcome::Sample(s) ==> e == WriterEvent::Received(s),
        !(outcome is Sample) ==> e == WriterEvent::NothingReceived,
{
    match outcome {
        ReceiveOutcome::Sample(s) => WriterEvent::Received(s),
        ReceiveOutcome::TimedOut => WriterEvent::NothingReceived,
        ReceiveOutcome::Closed => WriterEvent::NothingReceived,
    }
}

} // verus!
