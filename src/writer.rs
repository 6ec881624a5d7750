//! The decisions of the register-writer service: connect, back off after a
//! failed connection, receive position samples and turn each into two
//! register writes, and stop when asked.
//!
//! The caller performs each action and reports what happened; the next
//! decision follows from the state and that report alone.

use vstd::prelude::*;
use crate::estimator::PositionSample;
use crate::protocol::{FunctionCode, Register, RegisterWriteMessage};

verus! {

/// The fixed wait after a failed connection attempt, in milliseconds.
pub const RECONNECT_DELAY_MS: u64 = 3000;

/// The function code and register that one axis is written with.
#[derive(Debug, Clone, Copy, PartialEq, Eq, Structural)]
pub struct AxisRegister {
    pub function: FunctionCode,
    pub register: Register,
}

/// Where the two axes of a position are written.
#[derive(Debug, Clone, Copy, PartialEq, Eq, Structural)]
pub struct WriterTarget {
    pub unit: u8,
    pub register_x: AxisRegister,
    pub register_y: AxisRegister,
}

#[derive(Debug, Clone, Copy, PartialEq, Eq, Structural)]
pub enum WriterState {
    /// A connection attempt is under way.
    Connecting,
    /// Waiting out the delay after a failed attempt.
    BackingOff,
    /// Connected; samples are received and written.
    Connected,
    /// The service has finished.
    Stopped,
}

/// What the caller observed after performing the last action.
#[derive(Debug, Clone, Copy, PartialEq, Eq, Structural)]
pub enum WriterEvent {
    ConnectSucceeded,
    ConnectFailed,
    DelayElapsed,
    /// A sample arrived from the position channel.
    Received(PositionSample),
    /// The receive timed out or the channel is closed.
    NothingReceived,
    /// Both writes of the last sample were attempted; a failed write is
    /// only reported, never retried.
    WritesDone,
}

/// What the caller does next.
#[derive(Debug, Clone, Copy, PartialEq, Eq, Structural)]
pub enum WriterAction {
    Connect,
    Wait { millis: u64 },
    Receive,
    /// Send `x` then `y` on the open connection.
    Write { x: RegisterWriteMessage, y: RegisterWriteMessage },
    Stop,
}

/// The register write that stores `value` through `reg`.
pub open spec fn write_of(unit: u8, reg: AxisRegister, value: u16) -> RegisterWriteMessage {
    RegisterWriteMessage {
        transaction_id: 0,
        protocol_id: 0,
        unit_id: unit,
        function_code: reg.function.0,
        register: reg.register.0,
        value,
    }
}

/// The action that a state waits on.
pub open spec fn pending_action(state: WriterState) -> WriterAction {
    match state {
        WriterState::Connecting => WriterAction::Connect,
        WriterState::BackingOff => WriterAction::Wait { millis: RECONNECT_DELAY_MS },
        WriterState::Connected => WriterAction::Receive,
        WriterState::Stopped => WriterAction::Stop,
    }
}

/// The next state and action of the writer after `event`, with `exit` the
/// value of the exit flag read at this step.
pub open spec fn writer_next(
    target: WriterTarget,
    state: WriterState,
    event: WriterEvent,
    exit: bool,
) -> (WriterState, WriterAction) {
    match (state, event) {
        (WriterState::Connecting, WriterEvent::ConnectSucceeded) => (
            WriterState::Connected,
            WriterAction::Receive,
        ),
        (WriterState::Connecting, WriterEvent::ConnectFailed) => (
            WriterState::BackingOff,
            WriterAction::Wait { millis: RECONNECT_DELAY_MS },
        ),
        (WriterState::BackingOff, WriterEvent::DelayElapsed) => if exit {
            (WriterState::Stopped, WriterAction::Stop)
        } else {
            (WriterState::Connecting, WriterAction::Connect)
        },
        (WriterState::Connected, WriterEvent::Received(s)) => (
            WriterState::Connected,
            WriterAction::Write {
                x: write_of(target.unit, target.register_x, s.x),
                y: write_of(target.unit, target.register_y, s.y),
            },
        ),
        (WriterState::Connected, WriterEvent::NothingReceived) | (
            WriterState::Connected,
            WriterEvent::WritesDone,
        ) => if exit {
            (WriterState::Stopped, WriterAction::Stop)
        } else {
            (WriterState::Connected, WriterAction::Receive)
        },
        _ => (state, pending_action(state)),
    }
}

/// The writer's first state and action: connect.
pub fn writer_start() -> (r: (WriterState, WriterAction))
    ensures
        r == (WriterState::Connecting, WriterAction::Connect),
{
    (WriterState::Connecting, WriterAction::Connect)
}

fn writer_pending(state: WriterState) -> (r: WriterAction)
    ensures
        r == pending_action(state),
{
    match state {
        WriterState::Connecting => WriterAction::Connect,
        WriterState::BackingOff => WriterAction::Wait { millis: RECONNECT_DELAY_MS },
        WriterState::Connected => WriterAction::Receive,
        WriterState::Stopped => WriterAction::Stop,
    }
}

/// Decides the writer's next state and action after `event`; `exit` is the
/// exit flag as read at this step.
pub fn writer_step(target: WriterTarget, state: WriterState, event: WriterEvent, exit: bool) -> (r: (
    WriterState,
    WriterAction,
))
    ensures
        r == writer_next(target, state, event, exit),
{
    match (state, event) {
        (WriterState::Connecting, WriterEvent::ConnectSucceeded) => (
            WriterState::Connected,
            WriterAction::Receive,
        ),
        (WriterState::Connecting, WriterEvent::ConnectFailed) => (
            WriterState::BackingOff,
            WriterAction::Wait { millis: RECONNECT_DELAY_MS },
        ),
        (WriterState::BackingOff, WriterEvent::DelayElapsed) => {
            if exit {
                (WriterState::Stopped, WriterAction::Stop)
            } else {
                (WriterState::Connecting, WriterAction::Connect)
            }
        },
        (WriterState::Connected, WriterEvent::Received(s)) => {
            let x = RegisterWriteMessage::new(
                target.unit,
                target.register_x.function,
                target.register_x.register,
                s.x,
            );
            let y = RegisterWriteMessage::new(
                target.unit,
                target.register_y.function,
                target.register_y.register,
                s.y,
            );
            (WriterState::Connected, WriterAction::Write { x, y })
        },
        (WriterState::Connected, WriterEvent::NothingReceived) | (
            WriterState::Connected,
            WriterEvent::WritesDone,
        ) => {
            if exit {
                (WriterState::Stopped, WriterAction::Stop)
            } else {
                (WriterState::Connected, WriterAction::Receive)
            }
        },
        _ => (state, writer_pending(state)),
    }
}

/// A failed connection is always followed by the same fixed wait and then,
/// unless exit was requested, by a new attempt: the only retry policy is a
/// constant delay with no upper bound on the number of attempts.
pub proof fn law_writer_retries_after_fixed_delay(target: WriterTarget, exit: bool)
    ensures
        writer_next(target, WriterState::Connecting, WriterEvent::ConnectFailed, exit) == (
            WriterState::BackingOff,
            WriterAction::Wait { millis: RECONNECT_DELAY_MS },
        ),
        writer_next(target, WriterState::BackingOff, WriterEvent::DelayElapsed, false) == (
            WriterState::Connecting,
            WriterAction::Connect,
        ),
{
}

} // verus!
