//! How a queue is to be opened: access mode, blocking mode, limits, handler.

use crate::error::MqError;
use crate::handler::THandler;
use vstd::prelude::*;

verus! {

/// Open for receiving only.
pub const O_RDONLY: i32 = 0;

/// Open for sending only.
pub const O_WRONLY: i32 = 1;

/// Open for sending and receiving.
pub const O_RDWR: i32 = 2;

/// The bits of a flag word that hold the access mode.
pub const O_ACCMODE: i32 = 3;

/// Create the queue if no queue of that name exists.
pub const O_CREAT: i32 = 64;

/// Fail instead of waiting on an empty or a full queue.
pub const O_NONBLOCK: i32 = 2048;

/// The number of pending messages a queue holds unless told otherwise.
pub const DEFAULT_MAX_MESSAGES: i32 = 10;

/// The size in bytes of the largest message unless told otherwise.
pub const DEFAULT_MAX_MESSAGE_BUFFER_SIZE: i32 = 1024;

/// What a set of options says, as plain values.
pub struct OptionsView {
    /// The flag word as it was given, with the non-blocking bit once asked for.
    pub flag: i32,
    /// The largest number of pending messages.
    pub max_messages: i32,
    /// The largest size of a message, in bytes.
    pub max_message_buffer_size: i32,
    /// Whether a handler is attached.
    pub has_handler: bool,
}

impl OptionsView {
    /// The options that `new` makes from a flag word.
    pub open spec fn initial(flag: i32) -> OptionsView {
        OptionsView {
            flag,
            max_messages: DEFAULT_MAX_MESSAGES,
            max_message_buffer_size: DEFAULT_MAX_MESSAGE_BUFFER_SIZE,
            has_handler: false,
        }
    }

    /// The flag word in effect: a negative word counts as unset, and an
    /// unset word means read-only.
    pub open spec fn effective_flag(self) -> i32 {
        if self.flag < 0 {
            O_RDONLY
        } else {
            self.flag
        }
    }

    /// The access bits of the flag word in effect.
    pub open spec fn access(self) -> i32 {
        self.effective_flag() & O_ACCMODE
    }

    /// Whether a queue opened with these options can be received from.
    pub open spec fn can_read(self) -> bool {
        self.access() == O_RDONLY || self.access() == O_RDWR
    }

    /// Whether a queue opened with these options can be sent to.
    pub open spec fn can_write(self) -> bool {
        self.access() == O_WRONLY || self.access() == O_RDWR
    }

    /// Whether operations fail rather than wait.
    pub open spec fn is_non_blocking(self) -> bool {
        self.effective_flag() & O_NONBLOCK != 0
    }

    /// These options with the non-blocking bit set in the flag word.
    pub open spec fn non_blocking(self) -> OptionsView {
        OptionsView { flag: self.flag | O_NONBLOCK, ..self }
    }

    /// Both limits are positive.
    pub open spec fn wf(self) -> bool {
        self.max_messages > 0 && self.max_message_buffer_size > 0
    }
}

/// Asking for non-blocking mode leaves the access mode and the limits as
/// they are, makes options with a flag word that is set non-blocking, and
/// changes nothing when asked again.
pub proof fn lemma_non_blocking(options: OptionsView)
    ensures
        options.non_blocking().access() == options.access(),
        options.flag >= 0 ==> options.non_blocking().is_non_blocking(),
        options.non_blocking().non_blocking() == options.non_blocking(),
        options.non_blocking().wf() == options.wf(),
{
    let f = options.flag;
    assert((f | 2048i32) | 2048i32 == f | 2048i32) by (bit_vector);
    assert(f >= 0 ==> (f | 2048i32) >= 0 && (f | 2048i32) & 2048i32 != 0 && (f | 2048i32) & 3i32
        == f & 3i32) by (bit_vector);
    assert(f < 0 ==> (f | 2048i32) < 0) by (bit_vector);
}

/// The builder's interface.
pub trait TOptions: Sized {
    fn new(flag: i32) -> Self;

    fn read_only() -> Self;

    fn write_only() -> Self;

    fn read_n_write() -> Self;

    fn with_handler<T>(&mut self, handler: T) -> &mut Self where T: THandler;

    fn non_blocking(&mut self) -> &mut Self;

    fn max_messages(&mut self, msg_size: i32) -> Result<&mut Self, MqError>;

    fn max_message_buffer_size(&mut self, size: i32) -> Result<&mut Self, MqError>;

    fn get_flag(&self) -> i32;

    fn get_handler(&self) -> &Option<Box<dyn THandler>>;

    fn get_max_messages(&self) -> i32;

    fn get_max_message_buffer_size(&self) -> i32;
}

/// The configuration of a queue handle. Both limits are positive at all
/// times: the setters refuse any other value.
pub struct Options {
    flag: i32,
    max_messages: i32,
    max_message_buffer_size: i32,
    handler: Option<Box<dyn THandler>>,
}

impl View for Options {
    type V = OptionsView;

    closed spec fn view(&self) -> OptionsView {
        OptionsView {
            flag: self.flag,
            max_messages: self.max_messages,
            max_message_buffer_size: self.max_message_buffer_size,
            has_handler: self.handler is Some,
        }
    }
}

impl Options {
    #[verifier::type_invariant]
    spec fn limits_positive(self) -> bool {
        self.max_messages > 0 && self.max_message_buffer_size > 0
    }

    /// Whether a queue opened with these options can be received from.
    pub fn can_read(&self) -> (r: bool)
        ensures
            r == self@.can_read(),
    {
        let access: i32 = self.get_flag() & O_ACCMODE;
        access == O_RDONLY || access == O_RDWR
    }

    /// Whether a queue opened with these options can be sent to.
    pub fn can_write(&self) -> (r: bool)
        ensures
            r == self@.can_write(),
    {
        let access: i32 = self.get_flag() & O_ACCMODE;
        access == O_WRONLY || access == O_RDWR
    }

    /// Whether operations fail rather than wait.
    pub fn is_non_blocking(&self) -> (r: bool)
        ensures
            r == self@.is_non_blocking(),
    {
        self.get_flag() & O_NONBLOCK != 0
    }
}

impl TOptions for Options {
    /// Options with the given flag word, the default limits and no handler.
    fn new(flag: i32) -> (r: Self)
        ensures
            r@ == OptionsView::initial(flag),
    {
        Options {
            flag,
            max_messages: DEFAULT_MAX_MESSAGES,
            max_message_buffer_size: DEFAULT_MAX_MESSAGE_BUFFER_SIZE,
            handler: None,
        }
    }

    fn read_only() -> (r: Self)
        ensures
            r@ == OptionsView::initial(O_RDONLY),
    {
        Options::new(O_RDONLY)
    }

    fn write_only() -> (r: Self)
        ensures
            r@ == OptionsView::initial(O_WRONLY),
    {
        Options::new(O_WRONLY)
    }

    fn read_n_write() -> (r: Self)
        ensures
            r@ == OptionsView::initial(O_RDWR),
    {
        Options::new(O_RDWR)
    }

    /// Attaches a handler. A handler attached earlier is dropped.
    fn with_handler<T>(&mut self, handler: T) -> (r: &mut Self) where T: THandler
        ensures
            r@ == (OptionsView { has_handler: true, ..old(self)@ }),
            *final(self) == *final(r),
    {
        proof {
            use_type_invariant(&*self);
        }
        self.handler = Some(Box::new(handler));
        self
    }

    /// Sets the non-blocking bit of the flag word.
    fn non_blocking(&mut self) -> (r: &mut Self)
        ensures
            r@ == old(self)@.non_blocking(),
            *final(self) == *final(r),
    {
        proof {
            use_type_invariant(&*self);
        }
        self.flag = self.flag | O_NONBLOCK;
        self
    }

    /// Sets the largest number of pending messages, which must be positive.
    fn max_messages(&mut self, msg_size: i32) -> (r: Result<&mut Self, MqError>)
        ensures
            r is Ok <==> msg_size > 0,
            match r {
                Ok(o) => o@ == (OptionsView { max_messages: msg_size, ..old(self)@ })
                    && *final(self) == *final(o),
                Err(e) => e == MqError::InvalidConfig && *final(self) == *old(self),
            },
    {
        if msg_size <= 0 {
            return Err(MqError::InvalidConfig);
        }
        proof {
            use_type_invariant(&*self);
        }
        self.max_messages = msg_size;
        Ok(self)
    }

    /// Sets the largest size of a message in bytes, which must be positive.
    fn max_message_buffer_size(&mut self, size: i32) -> (r: Result<&mut Self, MqError>)
        ensures
            r is Ok <==> size > 0,
            match r {
                Ok(o) => o@ == (OptionsView { max_message_buffer_size: size, ..old(self)@ })
                    && *final(self) == *final(o),
                Err(e) => e == MqError::InvalidConfig && *final(self) == *old(self),
            },
    {
        if size <= 0 {
            return Err(MqError::InvalidConfig);
        }
        proof {
            use_type_invariant(&*self);
        }
        self.max_message_buffer_size = size;
        Ok(self)
    }

    /// The flag word in effect.
    fn get_flag(&self) -> (r: i32)
        ensures
            r == self@.effective_flag(),
    {
        if self.flag < 0 {
            return O_RDONLY;
        }
        self.flag
    }

    fn get_handler(&self) -> (r: &Option<Box<dyn THandler>>)
        ensures
            r is Some == self@.has_handler,
    {
        &self.handler
    }

    fn get_max_messages(&self) -> (r: i32)
        ensures
            r == self@.max_messages,
            r > 0,
    {
        proof {
            use_type_invariant(self);
        }
        self.max_messages
    }

    fn get_max_message_buffer_size(&self) -> (r: i32)
        ensures
            r == self@.max_message_buffer_size,
            r > 0,
    {
        proof {
            use_type_invariant(self);
        }
        self.max_message_buffer_size
    }
}

} // verus!
