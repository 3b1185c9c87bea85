use posix_mq::options::{
    DEFAULT_MAX_MESSAGES, DEFAULT_MAX_MESSAGE_BUFFER_SIZE, O_CREAT, O_NONBLOCK, O_RDONLY, O_RDWR,
    O_WRONLY,
};
use posix_mq::{build_mq_attr, check_root, Handler, MqAttr, MqError, Options, TOptions};

#[test]
fn defaults_are_ten_messages_of_1024_bytes() {
    let options = Options::read_only();
    assert_eq!(options.get_max_messages(), 10);
    assert_eq!(options.get_max_message_buffer_size(), 1024);
    assert_eq!(DEFAULT_MAX_MESSAGES, 10);
    assert_eq!(DEFAULT_MAX_MESSAGE_BUFFER_SIZE, 1024);
    assert!(options.get_handler().is_none());
}

#[test]
fn constructors_set_the_access_mode() {
    assert_eq!(Options::read_only().get_flag(), O_RDONLY);
    assert_eq!(Options::write_only().get_flag(), O_WRONLY);
    assert_eq!(Options::read_n_write().get_flag(), O_RDWR);
    assert_eq!(Options::new(O_RDWR | O_NONBLOCK).get_flag(), 2050);
    assert_eq!(O_CREAT, 64);
}

#[test]
fn access_mode_decides_reading_and_writing() {
    let read = Options::read_only();
    assert!(read.can_read());
    assert!(!read.can_write());
    let write = Options::write_only();
    assert!(!write.can_read());
    assert!(write.can_write());
    let both = Options::read_n_write();
    assert!(both.can_read());
    assert!(both.can_write());
    let neither = Options::new(3);
    assert!(!neither.can_read());
    assert!(!neither.can_write());
}

#[test]
fn a_negative_flag_word_falls_back_to_read_only() {
    let options = Options::new(-1);
    assert_eq!(options.get_flag(), O_RDONLY);
    assert!(options.can_read());
    assert!(!options.can_write());
    assert!(!options.is_non_blocking());
    assert_eq!(Options::new(i32::MIN).get_flag(), 0);
}

#[test]
fn non_blocking_sets_the_bit_and_is_idempotent() {
    let mut options = Options::read_n_write();
    assert!(!options.is_non_blocking());
    options.non_blocking();
    assert_eq!(options.get_flag(), 2050);
    assert!(options.is_non_blocking());
    options.non_blocking().non_blocking();
    assert_eq!(options.get_flag(), 2050);
    assert!(options.can_read());
    assert!(options.can_write());
    assert_eq!(options.get_max_messages(), 10);
    assert_eq!(options.get_max_message_buffer_size(), 1024);
}

#[test]
fn limits_are_set_when_positive() {
    let mut options = Options::read_n_write();
    assert!(options.max_messages(30).is_ok());
    assert!(options.max_message_buffer_size(124).is_ok());
    assert_eq!(options.get_max_messages(), 30);
    assert_eq!(options.get_max_message_buffer_size(), 124);
    assert!(options.max_messages(1).is_ok());
    assert!(options.max_message_buffer_size(i32::MAX).is_ok());
    assert_eq!(options.get_max_messages(), 1);
    assert_eq!(options.get_max_message_buffer_size(), i32::MAX);
    assert_eq!(options.get_flag(), O_RDWR);
}

#[test]
fn limits_that_are_not_positive_are_refused() {
    let mut options = Options::read_n_write();
    assert!(matches!(options.max_messages(0), Err(MqError::InvalidConfig)));
    assert!(matches!(options.max_messages(-5), Err(MqError::InvalidConfig)));
    assert!(matches!(options.max_message_buffer_size(0), Err(MqError::InvalidConfig)));
    assert!(matches!(options.max_message_buffer_size(i32::MIN), Err(MqError::InvalidConfig)));
    assert_eq!(options.get_max_messages(), 10);
    assert_eq!(options.get_max_message_buffer_size(), 1024);
    assert_eq!(options.get_flag(), O_RDWR);
}

#[test]
fn builder_calls_chain() {
    let mut options = Options::read_n_write();
    options
        .with_handler(Handler {})
        .max_messages(30)
        .unwrap()
        .max_message_buffer_size(124)
        .unwrap()
        .non_blocking();
    assert!(options.get_handler().is_some());
    assert_eq!(options.get_max_messages(), 30);
    assert_eq!(options.get_max_message_buffer_size(), 124);
    assert_eq!(options.get_flag(), 2050);
}

#[test]
fn attribute_records_are_built_field_by_field() {
    let attr = build_mq_attr(1024, 10, 2048, 3);
    assert_eq!(attr.mq_msgsize, 1024);
    assert_eq!(attr.mq_maxmsg, 10);
    assert_eq!(attr.mq_flags, 2048);
    assert_eq!(attr.mq_curmsgs, 3);
    assert_eq!(
        MqAttr::new(),
        MqAttr { mq_flags: 0, mq_maxmsg: 0, mq_msgsize: 0, mq_curmsgs: 0 }
    );
}

#[test]
fn only_user_zero_is_root() {
    assert_eq!(check_root(0), Ok(true));
    assert_eq!(check_root(1), Err(false));
    assert_eq!(check_root(1000), Err(false));
    assert_eq!(check_root(u32::MAX), Err(false));
}
