//! The queue handle: what it asks of the system, and what it makes of the
//! system's replies.

use crate::attr::{build_mq_attr, MqAttr};
use crate::error::{MqError, ReceiveFailure};
use crate::handler::THandler;
use crate::model::{Lifecycle, MqView, NotifyAction, EAGAIN, MESSAGE_PRIORITY, QUEUE_PERMISSIONS};
use crate::request::{
    AttrRequest, Delivery, DeliveryView, OpenRequest, OpenRequestView, ReceiveRequest,
    SendRequest, SendRequestView,
};
use crate::options::{Options, TOptions, O_CREAT};
use crate::text::decode_text;
use vstd::prelude::*;
use vstd::slice::{slice_subrange, slice_to_vec};

verus! {

/// Whether a user id is the superuser's. Some systems let only the
/// superuser register for notifications; nothing else here asks for it.
pub fn check_root(uid: u32) -> (r: Result<bool, bool>)
    ensures
        r == (if uid == 0 {
            Ok::<bool, bool>(true)
        } else {
            Err::<bool, bool>(false)
        }),
{
    if uid != 0 {
        return Err(false);
    }
    Ok(true)
}

/// The interface of a queue handle. Each operation has two halves: the
/// first returns what to ask of the system, the second takes the reply.
pub trait TPosixMQ<'a>: Sized {
    fn new() -> Self;

    fn with_options(&self, options: &'a Options) -> Self;

    fn create_queue(&self, queue_name: String) -> Result<OpenRequest, MqError>;

    fn on_opened(&mut self, fd: i32, errno: i32) -> Result<(), MqError>;

    fn publish_message(&self, msg: &[u8]) -> Result<SendRequest, MqError>;

    fn on_sent(&self, result: i32) -> Result<(), MqError>;

    fn receive(&self) -> Result<ReceiveRequest, MqError>;

    fn on_received(&self, buffer: &[u8], received: isize, errno: i32) -> Result<
        Delivery,
        MqError,
    >;

    fn get_attrs(&self) -> Result<AttrRequest, MqError>;

    fn on_attrs(&self, snapshot: MqAttr, result: i32) -> Result<MqAttr, MqError>;

    fn notify(&self) -> Result<i32, MqError>;

    fn on_registered(&mut self, result: i32) -> Result<(), MqError>;

    fn on_notification(&mut self) -> NotifyAction;

    fn unlink(&self, queue_name: String) -> String;

    fn close(&self) -> Result<i32, MqError>;

    fn on_closed(&mut self, result: i32) -> Result<(), MqError>;
}

/// A handle on one named message queue. It owns the descriptor from the
/// moment the queue is opened until the descriptor is released.
pub struct PosixMQ<'a> {
    queue_fd: i32,
    lifecycle: Lifecycle,
    armed: bool,
    options: Option<&'a Options>,
}

impl<'a> View for PosixMQ<'a> {
    type V = MqView;

    closed spec fn view(&self) -> MqView {
        MqView {
            lifecycle: self.lifecycle,
            fd: self.queue_fd,
            armed: self.armed,
            options: match self.options {
                Some(o) => Some(o@),
                None => None,
            },
        }
    }
}

impl<'a> PosixMQ<'a> {
    #[verifier::type_invariant]
    spec fn consistent(self) -> bool {
        &&& self.lifecycle == Lifecycle::Open ==> self.options is Some && self.queue_fd >= 0
        &&& self.armed ==> self.lifecycle == Lifecycle::Open
    }

    /// Where the handle stands in its life.
    pub fn state(&self) -> (r: Lifecycle)
        ensures
            r == self@.lifecycle,
            self@.wf(),
    {
        proof {
            use_type_invariant(self);
        }
        if let Some(options) = self.options {
            let _ = options.get_max_messages();
            let _ = options.get_max_message_buffer_size();
        }
        self.lifecycle
    }

    /// Whether a notification registration is outstanding.
    pub fn is_armed(&self) -> (r: bool)
        ensures
            r == self@.armed,
    {
        self.armed
    }

    /// The options of an open handle.
    fn open_options(&self) -> (r: Option<&'a Options>)
        ensures
            r is Some <==> self@.is_open(),
            r matches Some(o) ==> self@.options == Some(o@) && o@.wf() && self@.fd >= 0,
    {
        proof {
            use_type_invariant(self);
        }
        match self.lifecycle {
            Lifecycle::Open => match self.options {
                Some(o) => {
                    let _ = o.get_max_messages();
                    let _ = o.get_max_message_buffer_size();
                    Some(o)
                },
                None => None,
            },
            _ => None,
        }
    }
}

impl<'a> TPosixMQ<'a> for PosixMQ<'a> {
    /// A handle without options. No queue can be opened through it: it
    /// serves to build a handle with options from.
    fn new() -> (r: Self)
        ensures
            r@ == MqView::fresh(None),
    {
        PosixMQ { queue_fd: -1, lifecycle: Lifecycle::Unopened, armed: false, options: None }
    }

    /// A new, unopened handle on the given options.
    fn with_options(&self, options: &'a Options) -> (r: Self)
        ensures
            r@ == MqView::fresh(Some(options@)),
            r@.wf(),
    {
        let _ = options.get_max_messages();
        let _ = options.get_max_message_buffer_size();
        PosixMQ {
            queue_fd: -1,
            lifecycle: Lifecycle::Unopened,
            armed: false,
            options: Some(options),
        }
    }

    /// What to ask of the system to create the queue, or to open it where
    /// it exists: the configured mode together with the wish to create,
    /// and the configured limits.
    fn create_queue(&self, queue_name: String) -> (r: Result<OpenRequest, MqError>)
        ensures
            match r {
                Ok(req) => self@.create_queue(queue_name@) == Ok::<OpenRequestView, MqError>(req@),
                Err(e) => self@.create_queue(queue_name@) == Err::<OpenRequestView, MqError>(e),
            },
    {
        match self.lifecycle {
            Lifecycle::Unopened => {},
            _ => {
                return Err(MqError::InvalidState);
            },
        }
        match self.options {
            Some(options) => {
                let flag = options.get_flag();
                let max_msg_size = options.get_max_messages();
                let max_msg_buffer_size = options.get_max_message_buffer_size();
                Ok(
                    OpenRequest {
                        name: queue_name,
                        oflag: flag | O_CREAT,
                        mode: QUEUE_PERMISSIONS,
                        attr: build_mq_attr(max_msg_buffer_size as i64, max_msg_size as i64, 0, 0),
                    },
                )
            },
            None => Err(MqError::InvalidState),
        }
    }

    /// Takes the system's reply to the request to create the queue: the
    /// descriptor, or a negative number together with the error number.
    fn on_opened(&mut self, fd: i32, errno: i32) -> (r: Result<(), MqError>)
        ensures
            final(self)@ == old(self)@.on_opened(fd, errno).0,
            r == old(self)@.on_opened(fd, errno).1,
    {
        proof {
            use_type_invariant(&*self);
        }
        match self.lifecycle {
            Lifecycle::Unopened => {},
            _ => {
                return Err(MqError::InvalidState);
            },
        }
        if self.options.is_none() {
            return Err(MqError::InvalidState);
        }
        if fd < 0 {
            return Err(MqError::QueueCreateError(errno));
        }
        self.queue_fd = fd;
        self.lifecycle = Lifecycle::Open;
        Ok(())
    }

    /// What to ask of the system to send a message: all of its bytes, with
    /// their number, at the one priority this library sends with.
    fn publish_message(&self, msg: &[u8]) -> (r: Result<SendRequest, MqError>)
        ensures
            match r {
                Ok(req) => self@.publish_message(msg@) == Ok::<SendRequestView, MqError>(req@),
                Err(e) => self@.publish_message(msg@) == Err::<SendRequestView, MqError>(e),
            },
    {
        match self.open_options() {
            Some(options) => {
                if !options.can_write() {
                    return Err(MqError::InvalidState);
                }
                Ok(
                    SendRequest {
                        fd: self.queue_fd,
                        payload: slice_to_vec(msg),
                        length: msg.len(),
                        priority: MESSAGE_PRIORITY,
                    },
                )
            },
            None => Err(MqError::InvalidState),
        }
    }

    /// Takes the system's reply to a send. Any failure the system reports,
    /// a full queue on a non-blocking descriptor among them, is a send error.
    fn on_sent(&self, result: i32) -> (r: Result<(), MqError>)
        ensures
            r == self@.on_sent(result),
    {
        match self.open_options() {
            Some(options) => {
                if !options.can_write() {
                    Err(MqError::InvalidState)
                } else if result < 0 {
                    Err(MqError::SendError)
                } else {
                    Ok(())
                }
            },
            None => Err(MqError::InvalidState),
        }
    }

    /// What to ask of the system to receive a message: the descriptor and
    /// the size of the buffer, which is the configured size of a message.
    fn receive(&self) -> (r: Result<ReceiveRequest, MqError>)
        ensures
            r == self@.receive(),
    {
        match self.open_options() {
            Some(options) => {
                if !options.can_read() {
                    return Err(MqError::InvalidState);
                }
                Ok(
                    ReceiveRequest {
                        fd: self.queue_fd,
                        capacity: options.get_max_message_buffer_size() as usize,
                    },
                )
            },
            None => Err(MqError::InvalidState),
        }
    }

    /// Takes the system's reply to a receive: the buffer, the number of
    /// bytes received or a negative number, and the error number. A message
    /// is read as text and handed to the handler, if one is attached, with
    /// its bytes and with the text or the decode error. The result is `Ok`
    /// for every message, whether or not it reads as text: a caller that
    /// receives in a loop goes on as long as it gets `Ok`.
    fn on_received(&self, buffer: &[u8], received: isize, errno: i32) -> (r: Result<
        Delivery,
        MqError,
    >)
        ensures
            match r {
                Ok(d) => self@.on_received(buffer@, received as int, errno) == Ok::<
                    DeliveryView,
                    MqError,
                >(d@),
                Err(e) => self@.on_received(buffer@, received as int, errno) == Err::<
                    DeliveryView,
                    MqError,
                >(e),
            },
    {
        let options = match self.open_options() {
            Some(options) => options,
            None => {
                return Err(MqError::InvalidState);
            },
        };
        if !options.can_read() {
            return Err(MqError::InvalidState);
        }
        if received < 0 {
            if errno == EAGAIN {
                return Err(MqError::ReceiveError(ReceiveFailure::WouldBlock));
            }
            return Err(MqError::ReceiveError(ReceiveFailure::Os(errno)));
        }
        let capacity: usize = options.get_max_message_buffer_size() as usize;
        let mut length: usize = received as usize;
        if length > buffer.len() {
            length = buffer.len();
        }
        if length > capacity {
            length = capacity;
        }
        let raw = slice_to_vec(slice_subrange(buffer, 0, length));
        let text = decode_text(raw.as_slice());
        let handled = match options.get_handler() {
            Some(handler) => {
                match &text {
                    Ok(s) => handler.handle_queue_event(raw.as_slice(), Ok(s.as_str())),
                    Err(e) => handler.handle_queue_event(raw.as_slice(), Err(*e)),
                }
                true
            },
            None => false,
        };
        Ok(Delivery { raw, text, handled })
    }

    /// What to ask of the system to query the attributes: the descriptor
    /// and a zeroed record to fill.
    fn get_attrs(&self) -> (r: Result<AttrRequest, MqError>)
        ensures
            r == self@.get_attrs(),
    {
        match self.open_options() {
            Some(_) => Ok(AttrRequest { fd: self.queue_fd, attr: MqAttr::new() }),
            None => Err(MqError::InvalidState),
        }
    }

    /// Takes the system's reply to an attribute query: the record as the
    /// system left it, and the result of the call. On failure the record
    /// comes back inside the error.
    fn on_attrs(&self, snapshot: MqAttr, result: i32) -> (r: Result<MqAttr, MqError>)
        ensures
            r == self@.on_attrs(snapshot, result),
    {
        match self.open_options() {
            Some(_) => if result < 0 {
                Err(MqError::AttributesError(snapshot))
            } else {
                Ok(snapshot)
            },
            None => Err(MqError::InvalidState),
        }
    }

    /// The descriptor on which to register for a notification. A handle
    /// has at most one registration outstanding.
    fn notify(&self) -> (r: Result<i32, MqError>)
        ensures
            r == self@.notify(),
    {
        match self.open_options() {
            Some(_) => if self.armed {
                Err(MqError::InvalidState)
            } else {
                Ok(self.queue_fd)
            },
            None => Err(MqError::InvalidState),
        }
    }

    /// Takes the system's reply to the request to register. Where the
    /// system refused, no registration is outstanding.
    fn on_registered(&mut self, result: i32) -> (r: Result<(), MqError>)
        ensures
            final(self)@ == old(self)@.on_registered(result).0,
            r == old(self)@.on_registered(result).1,
    {
        proof {
            use_type_invariant(&*self);
        }
        if self.open_options().is_none() || self.armed || result < 0 {
            return Err(MqError::InvalidState);
        }
        self.armed = true;
        Ok(())
    }

    /// The system says that a message has arrived. An outstanding
    /// registration is used up by this, and the message is to be
    /// dispatched; without one nothing is dispatched.
    fn on_notification(&mut self) -> (r: NotifyAction)
        ensures
            final(self)@ == old(self)@.on_notification().0,
            r == old(self)@.on_notification().1,
    {
        proof {
            use_type_invariant(&*self);
        }
        if self.armed {
            self.armed = false;
            NotifyAction::Dispatch
        } else {
            NotifyAction::Ignore
        }
    }

    /// The name to remove from the system's namespace. The handle has no
    /// part in this: it may be in any state, and stays as it is.
    fn unlink(&self, queue_name: String) -> (r: String)
        ensures
            r@ == queue_name@,
    {
        queue_name
    }

    /// The descriptor to release.
    fn close(&self) -> (r: Result<i32, MqError>)
        ensures
            r == self@.close(),
    {
        match self.open_options() {
            Some(_) => Ok(self.queue_fd),
            None => Err(MqError::InvalidState),
        }
    }

    /// Takes the system's reply to the request to release the descriptor.
    /// An open handle is closed afterwards even where the system reported
    /// a failure, so that the descriptor is not released twice.
    fn on_closed(&mut self, result: i32) -> (r: Result<(), MqError>)
        ensures
            final(self)@ == old(self)@.on_closed(result).0,
            r == old(self)@.on_closed(result).1,
    {
        proof {
            use_type_invariant(&*self);
        }
        if self.open_options().is_none() {
            return Err(MqError::InvalidState);
        }
        self.armed = false;
        self.lifecycle = Lifecycle::Closed;
        if result < 0 {
            Err(MqError::QueueCloseError)
        } else {
            Ok(())
        }
    }
}

} // verus!
