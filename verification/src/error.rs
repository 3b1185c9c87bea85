//! The typed errors that the operations of a queue handle return.

use crate::attr::MqAttr;
use vstd::prelude::*;

verus! {

/// Why a receive did not hand out a message.
#[derive(Debug, Clone, Copy, PartialEq, Eq, Structural)]
pub enum ReceiveFailure {
    /// The queue was empty and the descriptor is in non-blocking mode.
    WouldBlock,
    /// Any other failure, with the error number that the system reported.
    Os(i32),
}

/// The errors of the library.
#[derive(Debug, Clone, Copy, PartialEq, Eq, Structural)]
pub enum MqError {
    /// A limit that is not positive was given to the options.
    InvalidConfig,
    /// The operation was called outside the lifecycle state it needs.
    InvalidState,
    /// The system refused to create or open the queue; holds its error number.
    QueueCreateError(i32),
    /// The system reported a failure while releasing the descriptor.
    QueueCloseError,
    /// The system refused the message.
    SendError,
    /// The system handed out no message.
    ReceiveError(ReceiveFailure),
    /// The attribute query failed; holds the snapshot as far as it was filled.
    AttributesError(MqAttr),
    /// A payload is not valid UTF-8 text.
    DecodeError,
}

} // verus!
