//! The decisions of the control loop: which input events call for a new
//! command, and which command a key snapshot calls for.

use crate::channel::{ChannelError, CommandChannel};
use crate::driving::{classify, classify_keys, DrivingState, KeySnapshot};
use crate::wire::datagram_of;
use vstd::prelude::*;

verus! {

/// What the input source reports.
#[derive(Clone, Copy, Debug, PartialEq, Eq, Structural)]
pub enum InputEvent {
    /// A key went down.
    KeyPressed,
    /// A key came up.
    KeyReleased,
    /// The user asked to leave.
    Quit,
    /// Anything else.
    Other,
}

/// What the loop does after an event.
#[derive(Clone, Copy, Debug, PartialEq, Eq, Structural)]
pub enum LoopStep {
    /// Take a key snapshot and send the command it calls for.
    Update,
    /// Leave the loop.
    Stop,
    /// Wait for the next event.
    Wait,
}

/// The step that follows an event: every key transition calls for exactly
/// one update, a quit request ends the loop, and nothing else matters.
pub open spec fn step_after(event: InputEvent) -> LoopStep {
    if event is Quit {
        LoopStep::Stop
    } else if event is KeyPressed || event is KeyReleased {
        LoopStep::Update
    } else {
        LoopStep::Wait
    }
}

/// Decides what the loop does after `event`.
pub fn next_step(event: InputEvent) -> (step: LoopStep)
    ensures
        step == step_after(event),
{
    match event {
        InputEvent::Quit => LoopStep::Stop,
        InputEvent::KeyPressed => LoopStep::Update,
        InputEvent::KeyReleased => LoopStep::Update,
        InputEvent::Other => LoopStep::Wait,
    }
}

/// The `(left, right)` setpoints that a key snapshot calls for.
pub open spec fn setpoints_for(keys: KeySnapshot) -> (u16, u16) {
    classify_keys(keys).motor_values()
}

/// A command channel together with the driving state last sent through it.
pub struct Control<S, A> {
    conn: CommandChannel<S, A>,
    state: DrivingState,
}

impl<S, A> Control<S, A> {
    /// The channel the commands go through.
    pub closed spec fn channel(&self) -> CommandChannel<S, A> {
        self.conn
    }

    /// The driving state of the last command, `Stopped` before the first.
    pub closed spec fn driving_state(&self) -> DrivingState {
        self.state
    }

    /// Takes over a channel. The vehicle is taken to be stopped.
    pub fn new(conn: CommandChannel<S, A>) -> (control: Self)
        ensures
            control.channel() == conn,
            control.driving_state() == DrivingState::Stopped,
    {
        Control { conn, state: DrivingState::Stopped }
    }

    /// Classifies `keys`, records the driving state, and sends its
    /// setpoints through the channel, as `CommandChannel::send_command`
    /// does.
    pub fn key_pressed<F>(&mut self, keys: KeySnapshot, transmit: F) -> (sent: Result<
        (),
        ChannelError,
    >) where F: FnOnce(&S, &A, &[u8; 6]) -> bool
        requires
            call_requires(
                transmit,
                (
                    &old(self).channel().endpoint(),
                    &old(self).channel().destination(),
                    &datagram_of(
                        old(self).channel().sequence(),
                        setpoints_for(keys).0,
                        setpoints_for(keys).1,
                    ),
                ),
            ),
        ensures
            final(self).driving_state() == classify_keys(keys),
            old(self).channel().advances_to(final(self).channel()),
            call_ensures(
                transmit,
                (
                    &old(self).channel().endpoint(),
                    &old(self).channel().destination(),
                    &datagram_of(
                        old(self).channel().sequence(),
                        setpoints_for(keys).0,
                        setpoints_for(keys).1,
                    ),
                ),
                sent is Ok,
            ),
            sent is Err ==> sent == Err::<(), ChannelError>(ChannelError::SendFailure),
    {
        self.state = classify(keys);
        let setpoints: (u16, u16) = self.state.to_motor_values();
        self.conn.send_command(setpoints.0, setpoints.1, transmit)
    }

    /// The driving state of the last command, `Stopped` before the first.
    pub fn state(&self) -> (state: DrivingState)
        ensures
            state == self.driving_state(),
    {
        self.state
    }

    /// The channel the commands go through.
    pub fn conn(&self) -> (conn: &CommandChannel<S, A>)
        ensures
            *conn == self.channel(),
    {
        &self.conn
    }
}

} // verus!
