//! A sans-I/O core for clients of POSIX named message queues.
//!
//! The crate decides what to ask of the operating system and what each reply
//! means: it never performs a system call itself. Every operation comes in
//! two halves. The first is named after the operation and returns the request
//! that the caller hands to the system; the second, named `on_*`, takes the
//! system's reply, moves the handle through its lifecycle and returns a typed
//! result. All of it is verified with Verus.

pub mod attr;
pub mod error;
pub mod handler;
pub mod laws;
pub mod model;
pub mod mq;
pub mod options;
pub mod request;
pub mod text;

pub use attr::{build_mq_attr, MqAttr};
pub use error::{MqError, ReceiveFailure};
pub use handler::{Handler, THandler};
pub use model::{message_of, Lifecycle, MqView, NotifyAction};
pub use mq::{check_root, PosixMQ, TPosixMQ};
pub use options::{Options, OptionsView, TOptions};
pub use request::{
    AttrRequest, Delivery, DeliveryView, OpenRequest, OpenRequestView, ReceiveRequest, SendRequest,
    SendRequestView,
};
pub use text::{decode_text, text_of};
