//! The decisions of the tracking service: acquire the camera, receive frames,
//! hand each frame's position to the channel, reacquire the camera when its
//! stream closes, replay a finite frame sequence with a fixed delay, and stop
//! when asked.
//!
//! The caller performs each action (the frame itself goes through the
//! normalisation stages and the estimator) and reports what happened. The
//! exit flag is read once per step, at the boundary of each loop iteration.

use vstd::prelude::*;
use crate::estimator::PositionSample;

verus! {

/// The fixed delay between two replayed frames, in milliseconds.
pub const REPLAY_DELAY_MS: u64 = 2000;

/// Where frames come from.
#[derive(Debug, Clone, Copy, PartialEq, Eq, Structural)]
pub enum FrameSource {
    /// An unbounded camera stream.
    Live,
    /// A finite sequence of `frames` recorded frames, played once.
    Replay { frames: usize },
}

#[derive(Debug, Clone, Copy, PartialEq, Eq, Structural)]
pub enum TrackerState {
    /// Acquiring the camera handle.
    Acquiring,
    /// The camera is held and frames are received.
    Receiving,
    /// Replaying: frame `next` of `total` is the one in hand or due.
    Replaying { next: usize, total: usize },
    /// The service has finished.
    Stopped,
}

/// What the caller observed after performing the last action.
#[derive(Debug, Clone, Copy, PartialEq, Eq, Structural)]
pub enum TrackerEvent {
    CameraAcquired,
    CameraFailed,
    /// A frame went through the pipeline, with its position when there was
    /// an estimate. Per-frame failures arrive as `None`.
    FrameProcessed(Option<PositionSample>),
    /// The bounded frame receive ended without a frame.
    ReceiveTimedOut,
    /// The camera's frame stream is closed.
    StreamClosed,
    DelayElapsed,
}

/// What the caller does next.
#[derive(Debug, Clone, Copy, PartialEq, Eq, Structural)]
pub enum TrackerAction {
    AcquireCamera,
    ReceiveFrame,
    /// Release the camera handle, then acquire it again.
    ReacquireCamera,
    /// Put replayed frame `index` through the pipeline.
    ProcessFrame { index: usize },
    Wait { millis: u64 },
    /// Release the camera if it is held and finish without error.
    Stop,
}

/// One decision: the new state, the sample to enqueue first (if any), and
/// the next action.
#[derive(Debug, Clone, Copy, PartialEq, Eq, Structural)]
pub struct TrackerStep {
    pub state: TrackerState,
    pub enqueue: Option<PositionSample>,
    pub action: TrackerAction,
}

/// The first decision for a frame source.
pub open spec fn tracker_start_spec(source: FrameSource) -> TrackerStep {
    match source {
        FrameSource::Live => TrackerStep {
            state: TrackerState::Acquiring,
            enqueue: None,
            action: TrackerAction::AcquireCamera,
        },
        FrameSource::Replay { frames } => if frames == 0 {
            TrackerStep { state: TrackerState::Stopped, enqueue: None, action: TrackerAction::Stop }
        } else {
            TrackerStep {
                state: TrackerState::Replaying { next: 0, total: frames },
                enqueue: None,
                action: TrackerAction::ProcessFrame { index: 0 },
            }
        },
    }
}

/// The sample that a processed frame hands to the channel: its estimate, in
/// the states that process frames.
pub open spec fn sample_of(state: TrackerState, event: TrackerEvent) -> Option<PositionSample> {
    match (state, event) {
        (TrackerState::Receiving, TrackerEvent::FrameProcessed(e)) => e,
        (TrackerState::Replaying { .. }, TrackerEvent::FrameProcessed(e)) => e,
        _ => None,
    }
}

/// The action that a state waits on.
pub open spec fn tracker_pending(state: TrackerState) -> TrackerAction {
    match state {
        TrackerState::Acquiring => TrackerAction::AcquireCamera,
        TrackerState::Receiving => TrackerAction::ReceiveFrame,
        TrackerState::Replaying { next, total } => if next < total {
            TrackerAction::ProcessFrame { index: next }
        } else {
            TrackerAction::Stop
        },
        TrackerState::Stopped => TrackerAction::Stop,
    }
}

/// The next decision after `event`, with `exit` the exit flag read at this
/// step.
pub open spec fn tracker_next(state: TrackerState, event: TrackerEvent, exit: bool) -> TrackerStep {
    let enqueue = sample_of(state, event);
    if exit {
        TrackerStep { state: TrackerState::Stopped, enqueue, action: TrackerAction::Stop }
    } else {
        let (s, a) = match (state, event) {
            (TrackerState::Acquiring, TrackerEvent::CameraAcquired) => (
                TrackerState::Receiving,
                TrackerAction::ReceiveFrame,
            ),
            (TrackerState::Acquiring, TrackerEvent::CameraFailed) => (
                TrackerState::Acquiring,
                TrackerAction::AcquireCamera,
            ),
            (TrackerState::Receiving, TrackerEvent::FrameProcessed(_)) => (
                TrackerState::Receiving,
                TrackerAction::ReceiveFrame,
            ),
            (TrackerState::Receiving, TrackerEvent::ReceiveTimedOut) => (
                TrackerState::Receiving,
                TrackerAction::ReceiveFrame,
            ),
            (TrackerState::Receiving, TrackerEvent::StreamClosed) => (
                TrackerState::Acquiring,
                TrackerAction::ReacquireCamera,
            ),
            (TrackerState::Replaying { next, total }, TrackerEvent::FrameProcessed(_)) => (
                TrackerState::Replaying {
                    next: if next < total {
                        (next + 1) as usize
                    } else {
                        next
                    },
                    total,
                },
                TrackerAction::Wait { millis: REPLAY_DELAY_MS },
            ),
            (TrackerState::Replaying { next, total }, TrackerEvent::DelayElapsed) => if next < total {
                (state, TrackerAction::ProcessFrame { index: next })
            } else {
                (TrackerState::Stopped, TrackerAction::Stop)
            },
            _ => (state, tracker_pending(state)),
        };
        TrackerStep { state: s, enqueue, action: a }
    }
}

/// The tracking service's first decision for `source`: acquire the camera,
/// or process the first recorded frame (stop at once when there is none).
pub fn tracker_start(source: FrameSource) -> (r: TrackerStep)
    ensures
        r == tracker_start_spec(source),
{
    match source {
        FrameSource::Live => TrackerStep {
            state: TrackerState::Acquiring,
            enqueue: None,
            action: TrackerAction::AcquireCamera,
        },
        FrameSource::Replay { frames } => {
            if frames == 0 {
                TrackerStep {
                    state: TrackerState::Stopped,
                    enqueue: None,
                    action: TrackerAction::Stop,
                }
            } else {
                TrackerStep {
                    state: TrackerState::Replaying { next: 0, total: frames },
                    enqueue: None,
                    action: TrackerAction::ProcessFrame { index: 0 },
                }
            }
        },
    }
}

fn pending(state: TrackerState) -> (r: TrackerAction)
    ensures
        r == tracker_pending(state),
{
    match state {
        TrackerState::Acquiring => TrackerAction::AcquireCamera,
        TrackerState::Receiving => TrackerAction::ReceiveFrame,
        TrackerState::Replaying { next, total } => {
            if next < total {
                TrackerAction::ProcessFrame { index: next }
            } else {
                TrackerAction::Stop
            }
        },
        TrackerState::Stopped => TrackerAction::Stop,
    }
}

/// Decides the tracking service's next step after `event`; `exit` is the
/// exit flag as read at this step.
pub fn tracker_step(state: TrackerState, event: TrackerEvent, exit: bool) -> (r: TrackerStep)
    ensures
        r == tracker_next(state, event, exit),
{
    let enqueue = match (state, event) {
        (TrackerState::Receiving, TrackerEvent::FrameProcessed(e)) => e,
        (TrackerState::Replaying { .. }, TrackerEvent::FrameProcessed(e)) => e,
        _ => None,
    };
    if exit {
        return TrackerStep { state: TrackerState::Stopped, enqueue, action: TrackerAction::Stop };
    }
    let (s, a) = match (state, event) {
        (TrackerState::Acquiring, TrackerEvent::CameraAcquired) => (
            TrackerState::Receiving,
            TrackerAction::ReceiveFrame,
        ),
        (TrackerState::Acquiring, TrackerEvent::CameraFailed) => (
            TrackerState::Acquiring,
            TrackerAction::AcquireCamera,
        ),
        (TrackerState::Receiving, TrackerEvent::FrameProcessed(_)) => (
            TrackerState::Receiving,
            TrackerAction::ReceiveFrame,
        ),
        (TrackerState::Receiving, TrackerEvent::ReceiveTimedOut) => (
            TrackerState::Receiving,
            TrackerAction::ReceiveFrame,
        ),
        (TrackerState::Receiving, TrackerEvent::StreamClosed) => (
            TrackerState::Acquiring,
            TrackerAction::ReacquireCamera,
        ),
        (TrackerState::Replaying { next, total }, TrackerEvent::FrameProcessed(_)) => {
            let n = if next < total {
                next + 1
            } else {
                next
            };
            (TrackerState::Replaying { next: n, total }, TrackerAction::Wait { millis: REPLAY_DELAY_MS })
        },
        (TrackerState::Replaying { next, total }, TrackerEvent::DelayElapsed) => {
            if next < total {
                (state, TrackerAction::ProcessFrame { index: next })
            } else {
                (TrackerState::Stopped, TrackerAction::Stop)
            }
        },
        _ => (state, pending(state)),
    };
    TrackerStep { state: s, enqueue, action: a }
}

/// Once exit is requested, the tracking loop's next decision is to stop
/// without error, whatever it has just observed, after handing over the
/// position of a frame it had already processed. Every observation ends a
/// bounded receive or one frame's processing, so the worker finishes within
/// one receive timeout plus one frame's processing time.
pub proof fn law_exit_stops_tracking(state: TrackerState, event: TrackerEvent)
    ensures
        tracker_next(state, event, true).state == TrackerState::Stopped,
        tracker_next(state, event, true).action == TrackerAction::Stop,
        tracker_next(state, event, true).enqueue == sample_of(state, event),
{
}

/// Each processed frame with an estimate hands exactly that position to the
/// channel, at the step that reports it, so positions are enqueued in the
/// order in which frames are processed; frames without an estimate hand over
/// nothing.
pub proof fn law_frame_position_is_enqueued(
    state: TrackerState,
    estimate: Option<PositionSample>,
    exit: bool,
)
    requires
        state is Receiving || state is Replaying,
    ensures
        tracker_next(state, TrackerEvent::FrameProcessed(estimate), exit).enqueue == estimate,
{
}

/// A stopped service stays stopped.
pub proof fn law_stopped_is_final(event: TrackerEvent, exit: bool)
    ensures
        tracker_next(TrackerState::Stopped, event, exit).state == TrackerState::Stopped,
        tracker_next(TrackerState::Stopped, event, exit).action == TrackerAction::Stop,
{
}

} // verus!
