use position_tracking::channel::{position_channel, writer_event_of, ReceiveOutcome};
use position_tracking::estimator::PositionSample;
use position_tracking::writer::WriterEvent;

fn s(x: u16, y: u16) -> PositionSample {
    PositionSample { x, y }
}

#[test]
fn position_channel_is_fifo() {
    let (tx, rx) = position_channel();
    assert!(tx.send(s(1, 1)));
    assert!(tx.send(s(2, 2)));
    assert!(tx.send(s(3, 3)));
    assert_eq!(rx.recv_timeout(100), ReceiveOutcome::Sample(s(1, 1)));
    assert_eq!(rx.recv_timeout(100), ReceiveOutcome::Sample(s(2, 2)));
    assert_eq!(rx.recv_timeout(100), ReceiveOutcome::Sample(s(3, 3)));
    assert_eq!(rx.recv_timeout(10), ReceiveOutcome::TimedOut);
}

#[test]
fn closed_channel_is_reported() {
    let (tx, rx) = position_channel();
    drop(rx);
    assert!(!tx.send(s(1, 1)));
    let (tx, rx) = position_channel();
    drop(tx);
    assert_eq!(rx.recv_timeout(10), ReceiveOutcome::Closed);
}

#[test]
fn receive_outcomes_become_writer_events() {
    assert_eq!(writer_event_of(ReceiveOutcome::Sample(s(4, 5))), WriterEvent::Received(s(4, 5)));
    assert_eq!(writer_event_of(ReceiveOutcome::TimedOut), WriterEvent::NothingReceived);
    assert_eq!(writer_event_of(ReceiveOutcome::Closed), WriterEvent::NothingReceived);
}
