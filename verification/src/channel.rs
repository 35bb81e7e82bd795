//! The command channel: a bound endpoint, a resolved destination and the
//! sequence counter that tags every datagram sent through it.
//!
//! The channel never looks inside its endpoint or its destination. The
//! caller supplies them, together with the transport that moves a datagram
//! from the one to the other.

use crate::wire::{
    datagram_of, encode_datagram, lemma_datagram_view,
    lemma_same_setpoints_differ_in_sequence_only,
};
use vstd::prelude::*;

verus! {

/// Why a channel could not be opened, or a command not sent.
#[derive(Clone, Copy, Debug, PartialEq, Eq, Structural)]
pub enum ChannelError {
    /// The destination resolved to no address at all.
    AddressResolutionError,
    /// The local endpoint could not be bound.
    BindError,
    /// The transport did not take the datagram.
    SendFailure,
}

/// The sequence number that follows `frame`: one more, modulo 65536.
pub open spec fn next_frame(frame: u16) -> u16 {
    ((frame + 1) % 0x1_0000) as u16
}

/// A one-way command channel from an endpoint of type `S` to a destination
/// of type `A`.
pub struct CommandChannel<S, A> {
    socket: S,
    dest: A,
    frame: u16,
}

impl<S, A> CommandChannel<S, A> {
    /// The bound local endpoint.
    pub closed spec fn endpoint(&self) -> S {
        self.socket
    }

    /// The destination every datagram goes to.
    pub closed spec fn destination(&self) -> A {
        self.dest
    }

    /// The sequence number the next datagram will carry.
    pub closed spec fn sequence(&self) -> u16 {
        self.frame
    }

    /// Whether `after` is this channel one command later: the same endpoint
    /// and destination, and the next sequence number.
    pub open spec fn advances_to(&self, after: Self) -> bool {
        &&& after.endpoint() == self.endpoint()
        &&& after.destination() == self.destination()
        &&& after.sequence() == next_frame(self.sequence())
    }

    /// Opens a channel from what binding the local endpoint gave and from
    /// the addresses the destination resolved to. A failed bind is reported
    /// before a failed resolution. Of several addresses the first is kept.
    /// The counter starts at zero.
    pub fn new(bound: Option<S>, resolved: Vec<A>) -> (opened: Result<Self, ChannelError>)
        ensures
            bound is None ==> opened == Err::<Self, ChannelError>(ChannelError::BindError),
            bound is Some && resolved@.len() == 0 ==> opened == Err::<Self, ChannelError>(
                ChannelError::AddressResolutionError,
            ),
            bound is Some && resolved@.len() > 0 ==> {
                &&& opened is Ok
                &&& opened->Ok_0.endpoint() == bound->Some_0
                &&& opened->Ok_0.destination() == resolved@[0]
                &&& opened->Ok_0.sequence() == 0
            },
    {
        let mut resolved = resolved;
        match bound {
            None => Err(ChannelError::BindError),
            Some(socket) => {
                if resolved.len() == 0 {
                    Err(ChannelError::AddressResolutionError)
                } else {
                    let dest = resolved.swap_remove(0);
                    Ok(CommandChannel { socket, dest, frame: 0 })
                }
            },
        }
    }

    /// Hands the datagram for `(left, right)` at the current sequence number
    /// to `transmit`, together with the endpoint and the destination, then
    /// advances the counter, whether or not `transmit` took the datagram.
    /// The command is sent exactly when `transmit` answers `true`.
    pub fn send_command<F>(&mut self, left: u16, right: u16, transmit: F) -> (sent: Result<
        (),
        ChannelError,
    >) where F: FnOnce(&S, &A, &[u8; 6]) -> bool
        requires
            call_requires(
                transmit,
                (
                    &old(self).endpoint(),
                    &old(self).destination(),
                    &datagram_of(old(self).sequence(), left, right),
                ),
            ),
        ensures
            old(self).advances_to(*final(self)),
            call_ensures(
                transmit,
                (
                    &old(self).endpoint(),
                    &old(self).destination(),
                    &datagram_of(old(self).sequence(), left, right),
                ),
                sent is Ok,
            ),
            sent is Err ==> sent == Err::<(), ChannelError>(ChannelError::SendFailure),
    {
        let datagram = encode_datagram(self.frame, left, right);
        let accepted = transmit(&self.socket, &self.dest, &datagram);
        self.frame = self.frame.wrapping_add(1);
        if accepted {
            Ok(())
        } else {
            Err(ChannelError::SendFailure)
        }
    }

    /// The sequence number the next datagram will carry.
    pub fn frame(&self) -> (frame: u16)
        ensures
            frame == self.sequence(),
    {
        self.frame
    }

    /// The bound local endpoint.
    pub fn socket(&self) -> (socket: &S)
        ensures
            *socket == self.endpoint(),
    {
        &self.socket
    }

    /// The destination every datagram goes to.
    pub fn dest(&self) -> (dest: &A)
        ensures
            *dest == self.destination(),
    {
        &self.dest
    }
}

/// A command and the one sent right after it with the same setpoints give
/// datagrams that differ in the sequence field and nowhere else.
pub proof fn lemma_consecutive_commands(frame: u16, left: u16, right: u16)
    ensures
        datagram_of(frame, left, right)@.subrange(2, 6) == datagram_of(
            next_frame(frame),
            left,
            right,
        )@.subrange(2, 6),
        datagram_of(frame, left, right)@.subrange(0, 2) != datagram_of(
            next_frame(frame),
            left,
            right,
        )@.subrange(0, 2),
{
    lemma_datagram_view(frame, left, right);
    lemma_datagram_view(next_frame(frame), left, right);
    lemma_same_setpoints_differ_in_sequence_only(frame, next_frame(frame), left, right);
}

} // verus!
