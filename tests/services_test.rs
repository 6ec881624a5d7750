use position_tracking::estimator::PositionSample;
use position_tracking::protocol::{FunctionCode, Register, RegisterWriteMessage};
use position_tracking::tracker::{
    tracker_start, tracker_step, FrameSource, TrackerAction, TrackerEvent, TrackerState,
};
use position_tracking::writer::{
    writer_start, writer_step, AxisRegister, WriterAction, WriterEvent, WriterState, WriterTarget,
    RECONNECT_DELAY_MS,
};

fn target() -> WriterTarget {
    WriterTarget {
        unit: 1,
        register_x: AxisRegister { function: FunctionCode(6), register: Register(101) },
        register_y: AxisRegister { function: FunctionCode(6), register: Register(103) },
    }
}

#[test]
fn exit_stops_an_idle_tracker() {
    let start = tracker_start(FrameSource::Live);
    assert_eq!(start.action, TrackerAction::AcquireCamera);
    let step = tracker_step(start.state, TrackerEvent::CameraAcquired, false);
    assert_eq!(step.state, TrackerState::Receiving);
    assert_eq!(step.action, TrackerAction::ReceiveFrame);
    let idle = tracker_step(step.state, TrackerEvent::ReceiveTimedOut, false);
    assert_eq!(idle.action, TrackerAction::ReceiveFrame);
    let stop = tracker_step(idle.state, TrackerEvent::ReceiveTimedOut, true);
    assert_eq!(stop.state, TrackerState::Stopped);
    assert_eq!(stop.action, TrackerAction::Stop);
    assert_eq!(stop.enqueue, None);
}

#[test]
fn tracker_enqueues_estimates_in_order() {
    let mut state = TrackerState::Receiving;
    let mut queued = vec![];
    let frames = [Some(PositionSample { x: 1, y: 1 }), None, Some(PositionSample { x: 2, y: 2 })];
    for f in frames {
        let step = tracker_step(state, TrackerEvent::FrameProcessed(f), false);
        if let Some(s) = step.enqueue {
            queued.push(s);
        }
        assert_eq!(step.action, TrackerAction::ReceiveFrame);
        state = step.state;
    }
    assert_eq!(queued, vec![PositionSample { x: 1, y: 1 }, PositionSample { x: 2, y: 2 }]);
    let last = tracker_step(state, TrackerEvent::FrameProcessed(Some(PositionSample { x: 3, y: 3 })), true);
    assert_eq!(last.enqueue, Some(PositionSample { x: 3, y: 3 }));
    assert_eq!(last.action, TrackerAction::Stop);
}

#[test]
fn tracker_reacquires_camera_after_stream_closes() {
    let step = tracker_step(TrackerState::Receiving, TrackerEvent::StreamClosed, false);
    assert_eq!(step.state, TrackerState::Acquiring);
    assert_eq!(step.action, TrackerAction::ReacquireCamera);
    let retry = tracker_step(TrackerState::Acquiring, TrackerEvent::CameraFailed, false);
    assert_eq!(retry.action, TrackerAction::AcquireCamera);
}

#[test]
fn replay_plays_each_frame_once_then_stops() {
    assert_eq!(tracker_start(FrameSource::Replay { frames: 0 }).action, TrackerAction::Stop);
    let mut step = tracker_start(FrameSource::Replay { frames: 2 });
    let mut processed = vec![];
    let mut guard = 0;
    while step.action != TrackerAction::Stop {
        guard += 1;
        assert!(guard < 20);
        let event = match step.action {
            TrackerAction::ProcessFrame { index } => {
                processed.push(index);
                TrackerEvent::FrameProcessed(None)
            }
            TrackerAction::Wait { millis } => {
                assert_eq!(millis, 2000);
                TrackerEvent::DelayElapsed
            }
            other => panic!("unexpected action {:?}", other),
        };
        step = tracker_step(step.state, event, false);
    }
    assert_eq!(processed, vec![0, 1]);
    assert_eq!(step.state, TrackerState::Stopped);
}

#[test]
fn writer_backs_off_then_reconnects() {
    let (state, action) = writer_start();
    assert_eq!(action, WriterAction::Connect);
    let (state, action) = writer_step(target(), state, WriterEvent::ConnectFailed, false);
    assert_eq!(state, WriterState::BackingOff);
    assert_eq!(action, WriterAction::Wait { millis: RECONNECT_DELAY_MS });
    assert_eq!(RECONNECT_DELAY_MS, 3000);
    let (state, action) = writer_step(target(), state, WriterEvent::DelayElapsed, false);
    assert_eq!((state, action), (WriterState::Connecting, WriterAction::Connect));
    let (_, action) = writer_step(target(), WriterState::BackingOff, WriterEvent::DelayElapsed, true);
    assert_eq!(action, WriterAction::Stop);
}

#[test]
fn writer_turns_a_sample_into_two_writes() {
    let (state, action) =
        writer_step(target(), WriterState::Connecting, WriterEvent::ConnectSucceeded, false);
    assert_eq!((state, action), (WriterState::Connected, WriterAction::Receive));
    let sample = PositionSample { x: 1234, y: 77 };
    let (state, action) = writer_step(target(), state, WriterEvent::Received(sample), false);
    assert_eq!(state, WriterState::Connected);
    match action {
        WriterAction::Write { x, y } => {
            assert_eq!(x, RegisterWriteMessage::new(1, FunctionCode(6), Register(101), 1234));
            assert_eq!(
                x.to_bytes(),
                vec![0x00, 0x00, 0x00, 0x00, 0x00, 0x04, 0x01, 0x06, 0x00, 0x65, 0x04, 0xD2]
            );
            assert_eq!(y.register, 103);
            assert_eq!(y.value, 77);
        }
        other => panic!("unexpected action {:?}", other),
    }
    let (_, action) = writer_step(target(), state, WriterEvent::WritesDone, false);
    assert_eq!(action, WriterAction::Receive);
    let (state, action) = writer_step(target(), WriterState::Connected, WriterEvent::NothingReceived, true);
    assert_eq!((state, action), (WriterState::Stopped, WriterAction::Stop));
}
