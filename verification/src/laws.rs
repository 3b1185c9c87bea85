//! What holds of a handle across several operations.

use crate::attr::MqAttr;
use crate::error::{MqError, ReceiveFailure};
use crate::model::{Lifecycle, MqView, NotifyAction, EAGAIN};
use crate::options::{O_ACCMODE, O_CREAT, O_NONBLOCK};
use crate::request::{DeliveryView, SendRequestView};
use crate::text::text_of;
use vstd::prelude::*;
use vstd::utf8::encode_utf8;

verus! {

/// The system hands back, in a receive buffer, the bytes it was given by
/// a send request, and says how many they are.
pub open spec fn hands_back(sent: SendRequestView, buffer: Seq<u8>, received: int) -> bool {
    &&& received == sent.length
    &&& received <= buffer.len()
    &&& received <= sent.payload.len()
    &&& buffer.take(received) == sent.payload.take(received)
}

/// Round trip: a message no longer than the configured size, sent through
/// a handle that is open for reading and writing and handed back by the
/// system, is delivered with exactly its bytes, and with what those bytes
/// read as.
pub proof fn lemma_round_trip(
    mq: MqView,
    message: Seq<u8>,
    buffer: Seq<u8>,
    received: int,
    errno: i32,
)
    requires
        mq.wf(),
        mq.writable(),
        mq.readable(),
        message.len() <= mq.options->0.max_message_buffer_size,
        hands_back(mq.publish_message(message)->Ok_0, buffer, received),
    ensures
        mq.publish_message(message) is Ok,
        mq.on_received(buffer, received, errno) == Ok::<DeliveryView, MqError>(
            DeliveryView {
                raw: message,
                text: text_of(message),
                handled: mq.options->0.has_handler,
            },
        ),
{
    let sent = mq.publish_message(message)->Ok_0;
    assert(sent.payload == message);
    assert(sent.length == message.len());
    assert(message.take(received) == message);
}

/// Round trip for text: where the message is the encoding of a text, the
/// delivery holds that text.
pub proof fn lemma_text_round_trip(
    mq: MqView,
    text: Seq<char>,
    buffer: Seq<u8>,
    received: int,
    errno: i32,
)
    requires
        mq.wf(),
        mq.writable(),
        mq.readable(),
        encode_utf8(text).len() <= mq.options->0.max_message_buffer_size,
        hands_back(mq.publish_message(encode_utf8(text))->Ok_0, buffer, received),
    ensures
        mq.on_received(buffer, received, errno) matches Ok(d) && d.raw == encode_utf8(text)
            && d.text == Ok::<Seq<char>, MqError>(text),
{
    lemma_round_trip(mq, encode_utf8(text), buffer, received, errno);
    crate::text::lemma_text_round_trip(text);
}

/// The flag word handed to the system says what the options say: it asks
/// to create the queue, it has the options' access mode, and it has the
/// non-blocking bit exactly when the options are non-blocking.
pub proof fn lemma_open_flags(mq: MqView)
    requires
        mq.options is Some,
    ensures
        mq.open_flags() & O_CREAT != 0,
        mq.open_flags() & O_ACCMODE == mq.options->0.access(),
        mq.open_flags() & O_NONBLOCK != 0 <==> mq.options->0.is_non_blocking(),
{
    let f = mq.options->0.effective_flag();
    assert((f | 64i32) & 64i32 != 0 && (f | 64i32) & 3i32 == f & 3i32 && (f | 64i32) & 2048i32 == f
        & 2048i32) by (bit_vector);
}

/// A send that the system refuses, as it does on a full queue in
/// non-blocking mode, is a send error, and nothing else.
pub proof fn lemma_refused_send(mq: MqView, result: i32)
    requires
        mq.writable(),
        result < 0,
    ensures
        mq.on_sent(result) == Err::<(), MqError>(MqError::SendError),
{
}

/// A receive that would have had to wait, as on an empty queue in
/// non-blocking mode, reports that and delivers nothing.
pub proof fn lemma_empty_receive(mq: MqView, buffer: Seq<u8>, received: int)
    requires
        mq.readable(),
        received < 0,
    ensures
        mq.on_received(buffer, received, EAGAIN) == Err::<DeliveryView, MqError>(
            MqError::ReceiveError(ReceiveFailure::WouldBlock),
        ),
{
}

/// A receive loop is not stopped by a message: whatever bytes arrive, and
/// whether or not they read as text, the reply is a delivery.
pub proof fn lemma_every_message_is_delivered(
    mq: MqView,
    buffer: Seq<u8>,
    received: int,
    errno: i32,
)
    requires
        mq.readable(),
    ensures
        mq.on_received(buffer, received, errno) is Ok <==> received >= 0,
{
}

/// Attributes right after creation: where the system reports the limits it
/// was asked for and nothing pending, the snapshot that comes back says
/// that no message is pending and holds the configured limits.
pub proof fn lemma_attributes_after_create(
    mq: MqView,
    name: Seq<char>,
    fd: i32,
    errno: i32,
    snapshot: MqAttr,
    result: i32,
)
    requires
        mq.wf(),
        mq.creatable(),
        fd >= 0,
        result >= 0,
        snapshot.mq_maxmsg == mq.create_queue(name)->Ok_0.attr.mq_maxmsg,
        snapshot.mq_msgsize == mq.create_queue(name)->Ok_0.attr.mq_msgsize,
        snapshot.mq_curmsgs == mq.create_queue(name)->Ok_0.attr.mq_curmsgs,
    ensures
        mq.on_opened(fd, errno).0.on_attrs(snapshot, result) == Ok::<MqAttr, MqError>(snapshot),
        snapshot.mq_curmsgs == 0,
        snapshot.mq_maxmsg == mq.options->0.max_messages,
        snapshot.mq_msgsize == mq.options->0.max_message_buffer_size,
{
}

/// A queue is created once: after a successful creation, a second request
/// and a second reply are both refused, and the handle stays as it is.
pub proof fn lemma_create_once(
    mq: MqView,
    fd: i32,
    errno: i32,
    name: Seq<char>,
    fd_again: i32,
    errno_again: i32,
)
    requires
        mq.on_opened(fd, errno).1 is Ok,
    ensures
        ({
            let opened = mq.on_opened(fd, errno).0;
            &&& opened.lifecycle == Lifecycle::Open
            &&& opened.fd == fd
            &&& opened.create_queue(name) is Err
            &&& opened.create_queue(name)->Err_0 == MqError::InvalidState
            &&& opened.on_opened(fd_again, errno_again) == (
                opened,
                Err::<(), MqError>(MqError::InvalidState),
            )
        }),
{
}

/// A handle that is not open, be it unopened or closed, refuses every
/// operation on the queue with `InvalidState`, and stays as it is.
pub proof fn lemma_not_open_refuses(
    mq: MqView,
    msg: Seq<u8>,
    buffer: Seq<u8>,
    received: int,
    errno: i32,
    snapshot: MqAttr,
    result: i32,
)
    requires
        mq.lifecycle != Lifecycle::Open,
    ensures
        mq.publish_message(msg) is Err && mq.publish_message(msg)->Err_0 == MqError::InvalidState,
        mq.on_sent(result) == Err::<(), MqError>(MqError::InvalidState),
        mq.receive() == Err::<crate::request::ReceiveRequest, MqError>(MqError::InvalidState),
        mq.on_received(buffer, received, errno) == Err::<DeliveryView, MqError>(
            MqError::InvalidState,
        ),
        mq.get_attrs() == Err::<crate::request::AttrRequest, MqError>(MqError::InvalidState),
        mq.on_attrs(snapshot, result) == Err::<MqAttr, MqError>(MqError::InvalidState),
        mq.notify() == Err::<i32, MqError>(MqError::InvalidState),
        mq.on_registered(result) == (mq, Err::<(), MqError>(MqError::InvalidState)),
        mq.close() == Err::<i32, MqError>(MqError::InvalidState),
        mq.on_closed(result) == (mq, Err::<(), MqError>(MqError::InvalidState)),
{
}

/// Closing ends the handle's use whatever the system said: the handle is
/// closed, no registration is left, and a further send is refused.
pub proof fn lemma_closed_for_good(mq: MqView, result: i32, msg: Seq<u8>)
    requires
        mq.is_open(),
    ensures
        ({
            let closed = mq.on_closed(result).0;
            &&& closed.lifecycle == Lifecycle::Closed
            &&& !closed.armed
            &&& mq.on_closed(result).1 is Err <==> result < 0
            &&& closed.publish_message(msg) is Err
            &&& closed.publish_message(msg)->Err_0 == MqError::InvalidState
        }),
{
}

/// How far a handle has come in its life.
pub open spec fn age(lifecycle: Lifecycle) -> nat {
    match lifecycle {
        Lifecycle::Unopened => 0,
        Lifecycle::Open => 1,
        Lifecycle::Closed => 2,
    }
}

/// No reply takes a handle back: its life moves forward or stays, and what
/// holds of every handle holds after every reply.
pub proof fn lemma_life_moves_forward(mq: MqView, fd: i32, errno: i32, result: i32)
    requires
        mq.wf(),
    ensures
        age(mq.on_opened(fd, errno).0.lifecycle) >= age(mq.lifecycle),
        age(mq.on_registered(result).0.lifecycle) == age(mq.lifecycle),
        age(mq.on_notification().0.lifecycle) == age(mq.lifecycle),
        age(mq.on_closed(result).0.lifecycle) >= age(mq.lifecycle),
        mq.on_opened(fd, errno).0.wf(),
        mq.on_registered(result).0.wf(),
        mq.on_notification().0.wf(),
        mq.on_closed(result).0.wf(),
{
}

/// A registration fires once: the notification that uses it up is
/// dispatched, and one that follows without a new registration is not.
pub proof fn lemma_notification_fires_once(mq: MqView)
    ensures
        ({
            let (after_first, first) = mq.on_notification();
            let (after_second, second) = after_first.on_notification();
            &&& first == NotifyAction::Dispatch <==> mq.armed
            &&& !after_first.armed
            &&& second == NotifyAction::Ignore
            &&& after_second == after_first
        }),
{
}

/// What can happen to a handle's registration.
pub enum NotifyEvent {
    /// The system replied to a request to register, with this result.
    Registered(i32),
    /// The system said that a message has arrived.
    Arrived,
}

/// The handle after one event.
pub open spec fn after_event(mq: MqView, event: NotifyEvent) -> MqView {
    match event {
        NotifyEvent::Registered(result) => mq.on_registered(result).0,
        NotifyEvent::Arrived => mq.on_notification().0,
    }
}

/// The handle after a run of events.
pub open spec fn after_events(mq: MqView, events: Seq<NotifyEvent>) -> MqView
    decreases events.len(),
{
    if events.len() == 0 {
        mq
    } else {
        after_event(after_events(mq, events.drop_last()), events.last())
    }
}

/// How many events of a run were dispatched.
pub open spec fn dispatched(mq: MqView, events: Seq<NotifyEvent>) -> nat
    decreases events.len(),
{
    if events.len() == 0 {
        0
    } else {
        let before = after_events(mq, events.drop_last());
        let earlier = dispatched(mq, events.drop_last());
        match events.last() {
            NotifyEvent::Arrived => if before.on_notification().1 == NotifyAction::Dispatch {
                earlier + 1
            } else {
                earlier
            },
            NotifyEvent::Registered(_) => earlier,
        }
    }
}

/// How many registrations of a run were made.
pub open spec fn registered(mq: MqView, events: Seq<NotifyEvent>) -> nat
    decreases events.len(),
{
    if events.len() == 0 {
        0
    } else {
        let before = after_events(mq, events.drop_last());
        let earlier = registered(mq, events.drop_last());
        match events.last() {
            NotifyEvent::Registered(result) => if before.on_registered(result).1 is Ok {
                earlier + 1
            } else {
                earlier
            },
            NotifyEvent::Arrived => earlier,
        }
    }
}

/// The registration a handle holds, counted.
pub open spec fn outstanding(mq: MqView) -> nat {
    if mq.armed {
        1
    } else {
        0
    }
}

/// At most one dispatch per registration: over any run of events, every
/// registration that was outstanding at the start or made during the run
/// has either been dispatched once or is still outstanding, and none is
/// both.
pub proof fn lemma_one_dispatch_per_registration(mq: MqView, events: Seq<NotifyEvent>)
    ensures
        dispatched(mq, events) + outstanding(after_events(mq, events)) == outstanding(mq)
            + registered(mq, events),
        dispatched(mq, events) <= outstanding(mq) + registered(mq, events),
    decreases events.len(),
{
    if events.len() > 0 {
        lemma_one_dispatch_per_registration(mq, events.drop_last());
    }
}

} // verus!
