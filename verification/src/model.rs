//! The queue handle as a state machine over plain values: what each request
//! holds and what each reply of the system does to the handle.

use crate::attr::MqAttr;
use crate::error::{MqError, ReceiveFailure};
use crate::options::{OptionsView, O_CREAT};
use crate::request::{AttrRequest, DeliveryView, OpenRequestView, ReceiveRequest, SendRequestView};
use crate::text::text_of;
use vstd::prelude::*;

verus! {

/// The permission bits a queue is created with: its owner may read and write.
pub const QUEUE_PERMISSIONS: u32 = 0o600;

/// The priority every message is sent with. With a single priority the
/// queue hands messages out in the order in which they were sent.
pub const MESSAGE_PRIORITY: u32 = 10;

/// The error number with which the system reports that a call on a
/// non-blocking descriptor would have had to wait.
pub const EAGAIN: i32 = 11;

/// Where a handle stands in its life. It moves forward only.
#[derive(Debug, Clone, Copy, PartialEq, Eq, Structural)]
pub enum Lifecycle {
    /// No queue has been opened yet.
    Unopened,
    /// The handle owns a descriptor.
    Open,
    /// The descriptor has been released.
    Closed,
}

/// What to do when the system says that a message has arrived.
#[derive(Debug, Clone, Copy, PartialEq, Eq, Structural)]
pub enum NotifyAction {
    /// A registration was outstanding and is now used up: take the message
    /// from the queue and hand it to the handler.
    Dispatch,
    /// No registration was outstanding: nothing is dispatched.
    Ignore,
}

/// A queue handle in plain values.
pub struct MqView {
    pub lifecycle: Lifecycle,
    /// The descriptor; meaningful while the handle is open.
    pub fd: i32,
    /// Whether a notification registration is outstanding.
    pub armed: bool,
    /// The options the handle was built from, if any.
    pub options: Option<OptionsView>,
}

/// The bytes of a reply that make up the message: as many as the system
/// says it received, but no more than the buffer holds or the options allow.
pub open spec fn message_of(buffer: Seq<u8>, received: int, capacity: int) -> Seq<u8>
    recommends
        received >= 0,
        capacity >= 0,
{
    let fitting = if received <= buffer.len() {
        received
    } else {
        buffer.len() as int
    };
    buffer.take(if fitting <= capacity { fitting } else { capacity })
}

impl MqView {
    /// A handle that was never opened.
    pub open spec fn fresh(options: Option<OptionsView>) -> MqView {
        MqView { lifecycle: Lifecycle::Unopened, fd: -1i32, armed: false, options }
    }

    /// What holds of every handle: an open handle has options and a
    /// descriptor, only an open handle has a registration outstanding, and
    /// the limits of its options are positive.
    pub open spec fn wf(self) -> bool {
        &&& self.lifecycle == Lifecycle::Open ==> self.options is Some && self.fd >= 0
        &&& self.armed ==> self.lifecycle == Lifecycle::Open
        &&& self.options is Some ==> self.options->0.wf()
    }

    pub open spec fn is_open(self) -> bool {
        self.lifecycle == Lifecycle::Open && self.options is Some
    }

    /// A queue can be created: none was opened yet, and there are options
    /// to open one with.
    pub open spec fn creatable(self) -> bool {
        self.lifecycle == Lifecycle::Unopened && self.options is Some
    }

    /// Messages can be sent: the handle is open in a mode that writes.
    pub open spec fn writable(self) -> bool {
        self.is_open() && self.options->0.can_write()
    }

    /// Messages can be received: the handle is open in a mode that reads.
    pub open spec fn readable(self) -> bool {
        self.is_open() && self.options->0.can_read()
    }

    /// A registration can be made: the handle is open and none is outstanding.
    pub open spec fn registrable(self) -> bool {
        self.is_open() && !self.armed
    }

    /// The flag word handed to the system when the queue is created.
    pub open spec fn open_flags(self) -> i32
        recommends
            self.options is Some,
    {
        self.options->0.effective_flag() | O_CREAT
    }

    /// The attributes asked for when the queue is created: the configured
    /// limits, no flags, nothing pending.
    pub open spec fn open_attr(self) -> MqAttr
        recommends
            self.options is Some,
    {
        MqAttr {
            mq_flags: 0,
            mq_maxmsg: self.options->0.max_messages as i64,
            mq_msgsize: self.options->0.max_message_buffer_size as i64,
            mq_curmsgs: 0,
        }
    }

    /// What is asked of the system to create the queue.
    pub open spec fn create_queue(self, name: Seq<char>) -> Result<OpenRequestView, MqError> {
        if self.creatable() {
            Ok(
                OpenRequestView {
                    name,
                    oflag: self.open_flags(),
                    mode: QUEUE_PERMISSIONS,
                    attr: self.open_attr(),
                },
            )
        } else {
            Err(MqError::InvalidState)
        }
    }

    /// What is asked of the system to send a message: all of its bytes.
    pub open spec fn publish_message(self, msg: Seq<u8>) -> Result<SendRequestView, MqError> {
        if self.writable() {
            Ok(
                SendRequestView {
                    fd: self.fd,
                    payload: msg,
                    length: msg.len() as usize,
                    priority: MESSAGE_PRIORITY,
                },
            )
        } else {
            Err(MqError::InvalidState)
        }
    }

    /// What is asked of the system to receive a message.
    pub open spec fn receive(self) -> Result<ReceiveRequest, MqError> {
        if self.readable() {
            Ok(
                ReceiveRequest {
                    fd: self.fd,
                    capacity: self.options->0.max_message_buffer_size as usize,
                },
            )
        } else {
            Err(MqError::InvalidState)
        }
    }

    /// What is asked of the system to query the attributes.
    pub open spec fn get_attrs(self) -> Result<AttrRequest, MqError> {
        if self.is_open() {
            Ok(
                AttrRequest {
                    fd: self.fd,
                    attr: MqAttr { mq_flags: 0, mq_maxmsg: 0, mq_msgsize: 0, mq_curmsgs: 0 },
                },
            )
        } else {
            Err(MqError::InvalidState)
        }
    }

    /// The descriptor on which to register for a notification.
    pub open spec fn notify(self) -> Result<i32, MqError> {
        if self.registrable() {
            Ok(self.fd)
        } else {
            Err(MqError::InvalidState)
        }
    }

    /// The descriptor to release.
    pub open spec fn close(self) -> Result<i32, MqError> {
        if self.is_open() {
            Ok(self.fd)
        } else {
            Err(MqError::InvalidState)
        }
    }

    /// The reply to the request to create the queue.
    pub open spec fn on_opened(self, fd: i32, errno: i32) -> (MqView, Result<(), MqError>) {
        if !self.creatable() {
            (self, Err(MqError::InvalidState))
        } else if fd < 0 {
            (self, Err(MqError::QueueCreateError(errno)))
        } else {
            (MqView { lifecycle: Lifecycle::Open, fd, ..self }, Ok(()))
        }
    }

    /// The reply to a send.
    pub open spec fn on_sent(self, result: i32) -> Result<(), MqError> {
        if !self.writable() {
            Err(MqError::InvalidState)
        } else if result < 0 {
            Err(MqError::SendError)
        } else {
            Ok(())
        }
    }

    /// The reply to a receive.
    pub open spec fn on_received(self, buffer: Seq<u8>, received: int, errno: i32) -> Result<
        DeliveryView,
        MqError,
    > {
        if !self.readable() {
            Err(MqError::InvalidState)
        } else if received < 0 {
            if errno == EAGAIN {
                Err(MqError::ReceiveError(ReceiveFailure::WouldBlock))
            } else {
                Err(MqError::ReceiveError(ReceiveFailure::Os(errno)))
            }
        } else {
            let raw = message_of(
                buffer,
                received,
                self.options->0.max_message_buffer_size as int,
            );
            Ok(DeliveryView { raw, text: text_of(raw), handled: self.options->0.has_handler })
        }
    }

    /// The reply to an attribute query.
    pub open spec fn on_attrs(self, snapshot: MqAttr, result: i32) -> Result<MqAttr, MqError> {
        if !self.is_open() {
            Err(MqError::InvalidState)
        } else if result < 0 {
            Err(MqError::AttributesError(snapshot))
        } else {
            Ok(snapshot)
        }
    }

    /// The reply to the request to register for a notification.
    pub open spec fn on_registered(self, result: i32) -> (MqView, Result<(), MqError>) {
        if !self.registrable() || result < 0 {
            (self, Err(MqError::InvalidState))
        } else {
            (MqView { armed: true, ..self }, Ok(()))
        }
    }

    /// The system says that a message has arrived.
    pub open spec fn on_notification(self) -> (MqView, NotifyAction) {
        if self.armed {
            (MqView { armed: false, ..self }, NotifyAction::Dispatch)
        } else {
            (self, NotifyAction::Ignore)
        }
    }

    /// The reply to the request to release the descriptor. An open handle
    /// is closed afterwards whatever the system said.
    pub open spec fn on_closed(self, result: i32) -> (MqView, Result<(), MqError>) {
        if !self.is_open() {
            (self, Err(MqError::InvalidState))
        } else {
            (
                MqView { lifecycle: Lifecycle::Closed, armed: false, ..self },
                if result < 0 {
                    Err(MqError::QueueCloseError)
                } else {
                    Ok(())
                },
            )
        }
    }
}

} // verus!
