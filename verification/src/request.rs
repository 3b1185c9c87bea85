//! What is handed to the system and what is handed on to the caller.

use crate::attr::MqAttr;
use crate::error::MqError;
use vstd::prelude::*;

verus! {

/// What is handed to the system to create or open a queue.
#[derive(Debug)]
pub struct OpenRequest {
    /// The name of the queue.
    pub name: String,
    /// The access mode, the blocking mode and the wish to create.
    pub oflag: i32,
    /// The permission bits of a queue that is created.
    pub mode: u32,
    /// The limits of a queue that is created.
    pub attr: MqAttr,
}

/// What is handed to the system to send one message.
#[derive(Debug)]
pub struct SendRequest {
    /// The descriptor to send on.
    pub fd: i32,
    /// The message, byte for byte.
    pub payload: Vec<u8>,
    /// The number of bytes to send: all of the payload.
    pub length: usize,
    /// The priority of the message.
    pub priority: u32,
}

/// What is handed to the system to receive one message.
#[derive(Debug, Clone, Copy, PartialEq, Eq, Structural)]
pub struct ReceiveRequest {
    /// The descriptor to receive on.
    pub fd: i32,
    /// The size in bytes of the buffer to receive into.
    pub capacity: usize,
}

/// What is handed to the system to query the attributes of a queue.
#[derive(Debug, Clone, Copy, PartialEq, Eq, Structural)]
pub struct AttrRequest {
    /// The descriptor to ask about.
    pub fd: i32,
    /// The zeroed record for the system to fill.
    pub attr: MqAttr,
}

/// A message as it was taken from a reply and handed on.
#[derive(Debug)]
pub struct Delivery {
    /// The payload, byte for byte.
    pub raw: Vec<u8>,
    /// The payload read as text, or `MqError::DecodeError`.
    pub text: Result<String, MqError>,
    /// Whether a handler was attached and has been called with the message.
    pub handled: bool,
}

impl View for Delivery {
    type V = DeliveryView;

    open spec fn view(&self) -> DeliveryView {
        DeliveryView {
            raw: self.raw@,
            text: match self.text {
                Ok(s) => Ok(s@),
                Err(e) => Err(e),
            },
            handled: self.handled,
        }
    }
}

/// A request to create or open a queue, in plain values.
pub struct OpenRequestView {
    pub name: Seq<char>,
    pub oflag: i32,
    pub mode: u32,
    pub attr: MqAttr,
}

impl View for OpenRequest {
    type V = OpenRequestView;

    open spec fn view(&self) -> OpenRequestView {
        OpenRequestView { name: self.name@, oflag: self.oflag, mode: self.mode, attr: self.attr }
    }
}

/// A request to send one message, in plain values.
pub struct SendRequestView {
    pub fd: i32,
    pub payload: Seq<u8>,
    pub length: usize,
    pub priority: u32,
}

impl View for SendRequest {
    type V = SendRequestView;

    open spec fn view(&self) -> SendRequestView {
        SendRequestView {
            fd: self.fd,
            payload: self.payload@,
            length: self.length,
            priority: self.priority,
        }
    }
}

/// A message as it is handed on, in plain values.
pub struct DeliveryView {
    /// The payload, byte for byte.
    pub raw: Seq<u8>,
    /// The payload read as text.
    pub text: Result<Seq<char>, MqError>,
    /// Whether a handler was attached and has been called with the message.
    pub handled: bool,
}

} // verus!
