//! The capability that consumes received messages.

use crate::error::MqError;
use vstd::prelude::*;

verus! {

/// A consumer of queue events. It is called once for each message that a
/// handle takes from its queue, with the payload as it arrived and with the
/// payload read as text: `Ok` with the text where the bytes are valid UTF-8,
/// `Err(MqError::DecodeError)` where they are not.
///
/// An implementation may be called from the receive loop and from the flow
/// that serves notifications at the same time, so it guards whatever state
/// it shares between calls.
pub trait THandler: Send + Sync + 'static {
    fn handle_queue_event(&self, buffer: &[u8], data: Result<&str, MqError>);
}

/// The handler that accepts every event and keeps nothing of it.
#[derive(Debug)]
pub struct Handler {}

impl THandler for Handler {
    fn handle_queue_event(&self, buffer: &[u8], data: Result<&str, MqError>) {
    }
}

} // verus!
