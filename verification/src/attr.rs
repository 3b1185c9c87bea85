//! The attribute record of a message queue.

use vstd::prelude::*;

verus! {

/// A snapshot of a queue's attributes, as the system reports them: flags,
/// the limits the queue was made with, and how many messages are pending.
#[derive(Debug, Clone, Copy, PartialEq, Eq, Structural)]
pub struct MqAttr {
    pub mq_flags: i64,
    pub mq_maxmsg: i64,
    pub mq_msgsize: i64,
    pub mq_curmsgs: i64,
}

impl MqAttr {
    /// The zeroed record that an attribute query starts from.
    pub fn new() -> (attr: Self)
        ensures
            attr == (MqAttr { mq_flags: 0, mq_maxmsg: 0, mq_msgsize: 0, mq_curmsgs: 0 }),
    {
        MqAttr { mq_flags: 0, mq_maxmsg: 0, mq_msgsize: 0, mq_curmsgs: 0 }
    }
}

/// Builds an attribute record from its four parts. Note the order of the
/// parameters: message size first, then message count, flags, pending count.
pub fn build_mq_attr(mq_msgsize: i64, mq_maxmsg: i64, mq_flags: i64, mq_curmsgs: i64) -> (attr:
    MqAttr)
    ensures
        attr.mq_msgsize == mq_msgsize,
        attr.mq_maxmsg == mq_maxmsg,
        attr.mq_flags == mq_flags,
        attr.mq_curmsgs == mq_curmsgs,
{
    MqAttr { mq_flags, mq_curmsgs, mq_maxmsg, mq_msgsize }
}

} // verus!
