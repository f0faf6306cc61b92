//! Event-dispatch and continuation-resumption core for a radio link driver.
//!
//! Application tasks issue commands to a radio controller, register a waiter,
//! and suspend; hardware events are later matched to the registered waiter and
//! resume it with a typed result. This crate holds the verified decision core:
//! which command to issue, which waiter an event resolves, and what result the
//! resumed task receives. Performing the commands and delivering the events is
//! the surrounding runtime's job; it hands the immediate accept/reject status
//! of each command and every event record back to the functions here.

use vstd::prelude::*;

pub mod bus;
pub mod cmd;
pub mod central;
pub mod conn;
pub mod l2cap;
pub mod portal;
pub mod signal;

verus! {

/// Maximum number of concurrent connections the driver tracks.
pub const CONNS_MAX: usize = 8;

/// Immediate rejection status returned by the radio controller for a command.
///
/// `Resources` (out of queue space / credits) is the one recoverable kind and
/// is kept as its own variant; every other nonzero status code is carried
/// through opaquely.
#[derive(Clone, Copy, Debug, PartialEq, Eq, Structural)]
pub enum RawError {
    Resources,
    InvalidState,
    Other(u32),
}

/// Operation target was not a live connection.
#[derive(Clone, Copy, Debug, PartialEq, Eq, Structural)]
pub struct DisconnectedError;

/// Status code meaning the command was accepted.
pub const STATUS_SUCCESS: u32 = 0;
/// Status code meaning the controller is not in a state for the command.
pub const STATUS_INVALID_STATE: u32 = 8;
/// Status code meaning the controller is out of queue space or credits.
pub const STATUS_RESOURCES: u32 = 19;

impl RawError {
    /// The error a raw status code stands for, when it is one.
    pub open spec fn convert_spec(ret: u32) -> Result<(), RawError> {
        if ret == STATUS_SUCCESS {
            Ok(())
        } else if ret == STATUS_INVALID_STATE {
            Err(RawError::InvalidState)
        } else if ret == STATUS_RESOURCES {
            Err(RawError::Resources)
        } else {
            Err(RawError::Other(ret))
        }
    }

    /// Reads the controller's raw status code: zero is acceptance, the two
    /// codes the driver reacts to get their own variants, anything else is
    /// carried opaquely.
    pub fn convert(ret: u32) -> (r: Result<(), RawError>)
        ensures
            r == Self::convert_spec(ret),
    {
        if ret == STATUS_SUCCESS {
            Ok(())
        } else if ret == STATUS_INVALID_STATE {
            Err(RawError::InvalidState)
        } else if ret == STATUS_RESOURCES {
            Err(RawError::Resources)
        } else {
            Err(RawError::Other(ret))
        }
    }
}

} // verus!
