//! Remote control of a differential-drive vehicle: key snapshots are
//! classified into driving states, driving states are mapped to motor
//! setpoints, and setpoints are framed into sequenced datagrams.
//!
//! - `driving`: the nine driving states, the key precedence that selects
//!   one, and the setpoint table.
//! - `wire`: the six-byte big-endian datagram.
//! - `channel`: the sequence counter and the sending of one command.
//! - `control`: the steps of the control loop.

pub mod channel;
pub mod control;
pub mod driving;
pub mod wire;
