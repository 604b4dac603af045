//! Driver core for a Bluetooth Low Energy bathroom scale.
//!
//! The crate holds the parts of the driver that are pure logic: the
//! calendar-checked measurement records ([`measurement`]), the decoder for
//! notification payloads ([`frame`]), and the session state machine that
//! dictates the command sequence, the subscription order and the
//! timeout-bounded receive loop ([`protocol`]). Transport work (connecting,
//! writing, subscribing, awaiting events) is performed by a caller that
//! drives the state machine action by action.

pub mod device;
pub mod frame;
pub mod measurement;
pub mod protocol;
