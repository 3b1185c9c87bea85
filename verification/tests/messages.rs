use posix_mq::model::EAGAIN;
use posix_mq::{
    decode_text, Lifecycle, MqError, Options, PosixMQ, ReceiveFailure, THandler, TOptions,
    TPosixMQ,
};
use std::sync::{Arc, Mutex};

type Seen = Arc<Mutex<Vec<(Vec<u8>, Result<String, MqError>)>>>;

struct Recorder {
    seen: Seen,
}

impl THandler for Recorder {
    fn handle_queue_event(&self, buffer: &[u8], data: Result<&str, MqError>) {
        let text = match data {
            Ok(s) => Ok(String::from(s)),
            Err(e) => Err(e),
        };
        self.seen.lock().unwrap().push((buffer.to_vec(), text));
    }
}

fn recording_options(flag: i32) -> (Options, Seen) {
    let seen: Seen = Arc::new(Mutex::new(Vec::new()));
    let mut options = Options::new(flag);
    options.with_handler(Recorder { seen: seen.clone() });
    (options, seen)
}

fn open_handle(options: &Options, fd: i32) -> PosixMQ<'_> {
    let mut mq = PosixMQ::new().with_options(options);
    mq.create_queue(String::from("/test-queue")).unwrap();
    mq.on_opened(fd, 0).unwrap();
    mq
}

// Plays the system's part for one message: what was sent comes back in a
// buffer of the requested size.
fn carry(payload: &[u8], length: usize, capacity: usize) -> (Vec<u8>, isize) {
    let mut buffer = vec![0u8; capacity];
    buffer[..length].copy_from_slice(&payload[..length]);
    (buffer, length as isize)
}

#[test]
fn hello_goes_round_and_the_handle_closes() {
    let (mut options, seen) = recording_options(2);
    options.max_message_buffer_size(1024).unwrap().max_messages(10).unwrap();
    let mut mq = PosixMQ::new().with_options(&options);
    let created = mq.create_queue(String::from("/test-queue")).unwrap();
    assert_eq!(created.name, "/test-queue");
    assert_eq!(mq.on_opened(3, 0), Ok(()));
    assert_eq!(mq.state(), Lifecycle::Open);

    let sent = mq.publish_message("hello".as_bytes()).unwrap();
    assert_eq!(sent.fd, 3);
    assert_eq!(sent.payload, b"hello");
    assert_eq!(sent.length, 5);
    assert_eq!(sent.priority, 10);
    assert_eq!(mq.on_sent(0), Ok(()));

    let request = mq.receive().unwrap();
    let (buffer, received) = carry(&sent.payload, sent.length, request.capacity);
    let delivery = mq.on_received(&buffer, received, 0).unwrap();
    assert_eq!(delivery.raw, b"hello");
    assert_eq!(delivery.text, Ok(String::from("hello")));
    assert!(delivery.handled);
    assert_eq!(*seen.lock().unwrap(), vec![(b"hello".to_vec(), Ok(String::from("hello")))]);

    assert_eq!(mq.close(), Ok(3));
    assert_eq!(mq.on_closed(0), Ok(()));
    assert_eq!(mq.state(), Lifecycle::Closed);
    assert!(matches!(mq.publish_message(b"hello"), Err(MqError::InvalidState)));
    assert_eq!(seen.lock().unwrap().len(), 1);
}

#[test]
fn binary_payloads_go_round_byte_for_byte() {
    let (options, seen) = recording_options(2);
    let mq = open_handle(&options, 3);
    let message: Vec<u8> = vec![0, 159, 146, 150, 0, 255, b'a', 0];
    let sent = mq.publish_message(&message).unwrap();
    assert_eq!(sent.payload, message);
    assert_eq!(sent.length, 8);
    let request = mq.receive().unwrap();
    let (buffer, received) = carry(&sent.payload, sent.length, request.capacity);
    let delivery = mq.on_received(&buffer, received, 0).unwrap();
    assert_eq!(delivery.raw, message);
    assert_eq!(delivery.text, Err(MqError::DecodeError));
    assert_eq!(*seen.lock().unwrap(), vec![(message, Err(MqError::DecodeError))]);
}

#[test]
fn a_message_of_the_full_size_goes_round() {
    let (mut options, seen) = recording_options(2);
    options.max_message_buffer_size(16).unwrap();
    let mq = open_handle(&options, 3);
    let message = [b'x'; 16];
    let sent = mq.publish_message(&message).unwrap();
    let request = mq.receive().unwrap();
    assert_eq!(request.capacity, 16);
    let (buffer, received) = carry(&sent.payload, sent.length, request.capacity);
    let delivery = mq.on_received(&buffer, received, 0).unwrap();
    assert_eq!(delivery.raw, message);
    assert_eq!(delivery.text, Ok(String::from("xxxxxxxxxxxxxxxx")));
    assert_eq!(seen.lock().unwrap().len(), 1);
}

#[test]
fn an_empty_message_is_a_message() {
    let (options, seen) = recording_options(2);
    let mq = open_handle(&options, 3);
    let sent = mq.publish_message(b"").unwrap();
    assert_eq!(sent.length, 0);
    assert!(sent.payload.is_empty());
    let delivery = mq.on_received(&[7, 7, 7], 0, 0).unwrap();
    assert!(delivery.raw.is_empty());
    assert_eq!(delivery.text, Ok(String::new()));
    assert_eq!(*seen.lock().unwrap(), vec![(Vec::new(), Ok(String::new()))]);
}

#[test]
fn a_refused_send_is_a_send_error() {
    let mut options = Options::read_n_write();
    options.non_blocking();
    let mut mq = PosixMQ::new().with_options(&options);
    let created = mq.create_queue(String::from("/test-queue")).unwrap();
    assert_eq!(created.oflag & 2048, 2048);
    mq.on_opened(3, 0).unwrap();
    assert!(mq.publish_message(b"one more").is_ok());
    assert_eq!(mq.on_sent(-1), Err(MqError::SendError));
    assert_eq!(mq.on_sent(i32::MIN), Err(MqError::SendError));
    assert_eq!(mq.state(), Lifecycle::Open);
    assert_eq!(mq.on_sent(0), Ok(()));
}

#[test]
fn an_empty_queue_would_block() {
    let (mut options, seen) = recording_options(0);
    options.non_blocking();
    let mq = open_handle(&options, 3);
    assert_eq!(EAGAIN, 11);
    let reply = mq.on_received(&[0u8; 1024], -1, EAGAIN);
    assert!(matches!(reply, Err(MqError::ReceiveError(ReceiveFailure::WouldBlock))));
    assert!(seen.lock().unwrap().is_empty());
    assert_eq!(mq.state(), Lifecycle::Open);
}

#[test]
fn other_receive_failures_carry_the_error_number() {
    let (options, seen) = recording_options(0);
    let mq = open_handle(&options, 3);
    let reply = mq.on_received(&[0u8; 8], -1, 9);
    assert!(matches!(reply, Err(MqError::ReceiveError(ReceiveFailure::Os(9)))));
    let reply = mq.on_received(&[0u8; 8], isize::MIN, 90);
    assert!(matches!(reply, Err(MqError::ReceiveError(ReceiveFailure::Os(90)))));
    assert!(seen.lock().unwrap().is_empty());
}

#[test]
fn text_that_does_not_decode_reaches_the_handler_as_an_error() {
    let (options, seen) = recording_options(0);
    let mq = open_handle(&options, 3);
    let first = mq.on_received(&[0xc3, 0x28, 0, 0], 2, 0).unwrap();
    assert_eq!(first.raw, vec![0xc3, 0x28]);
    assert_eq!(first.text, Err(MqError::DecodeError));
    assert!(first.handled);
    let second = mq.on_received(b"next", 4, 0).unwrap();
    assert_eq!(second.text, Ok(String::from("next")));
    assert_eq!(
        *seen.lock().unwrap(),
        vec![
            (vec![0xc3, 0x28], Err(MqError::DecodeError)),
            (b"next".to_vec(), Ok(String::from("next"))),
        ]
    );
}

#[test]
fn without_a_handler_messages_are_drained() {
    let options = Options::read_only();
    let mq = open_handle(&options, 3);
    let delivery = mq.on_received(b"hello", 5, 0).unwrap();
    assert_eq!(delivery.raw, b"hello");
    assert_eq!(delivery.text, Ok(String::from("hello")));
    assert!(!delivery.handled);
}

#[test]
fn the_last_handler_wins() {
    let first: Seen = Arc::new(Mutex::new(Vec::new()));
    let second: Seen = Arc::new(Mutex::new(Vec::new()));
    let mut options = Options::read_only();
    options.with_handler(Recorder { seen: first.clone() });
    options.with_handler(Recorder { seen: second.clone() });
    let mq = open_handle(&options, 3);
    mq.on_received(b"hello", 5, 0).unwrap();
    assert!(first.lock().unwrap().is_empty());
    assert_eq!(second.lock().unwrap().len(), 1);
}

#[test]
fn a_reply_is_cut_to_what_the_buffer_and_the_options_allow() {
    let (mut options, seen) = recording_options(0);
    options.max_message_buffer_size(4).unwrap();
    let mq = open_handle(&options, 3);
    let delivery = mq.on_received(b"abcdefgh", 6, 0).unwrap();
    assert_eq!(delivery.raw, b"abcd");
    let delivery = mq.on_received(b"ab", 3, 0).unwrap();
    assert_eq!(delivery.raw, b"ab");
    let delivery = mq.on_received(b"abcdefgh", isize::MAX, 0).unwrap();
    assert_eq!(delivery.raw, b"abcd");
    let delivery = mq.on_received(b"abcdefgh", 1, 0).unwrap();
    assert_eq!(delivery.raw, b"a");
    assert_eq!(seen.lock().unwrap().len(), 4);
}

#[test]
fn bytes_after_the_message_are_not_delivered() {
    let (options, seen) = recording_options(0);
    let mq = open_handle(&options, 3);
    let delivery = mq.on_received(b"hello\0world", 5, 0).unwrap();
    assert_eq!(delivery.raw, b"hello");
    let delivery = mq.on_received(b"hello\0world", 11, 0).unwrap();
    assert_eq!(delivery.raw, b"hello\0world");
    assert_eq!(delivery.text, Ok(String::from("hello\0world")));
    assert_eq!(seen.lock().unwrap().len(), 2);
}

#[test]
fn text_is_decoded_as_utf8() {
    assert_eq!(decode_text(b"hello"), Ok(String::from("hello")));
    assert_eq!(decode_text(&[0x68, 0xc3, 0xa9]), Ok(String::from("h\u{e9}")));
    assert_eq!(decode_text(&[0xf0, 0x9f, 0x92, 0x96]), Ok(String::from("\u{1f496}")));
    assert_eq!(decode_text(b""), Ok(String::new()));
    assert_eq!(decode_text(&[0xff]), Err(MqError::DecodeError));
    assert_eq!(decode_text(&[0xf0, 0x9f, 0x92]), Err(MqError::DecodeError));
    assert_eq!(decode_text(&[0xed, 0xa0, 0x80]), Err(MqError::DecodeError));
    assert_eq!(decode_text(&[0xc0, 0x80]), Err(MqError::DecodeError));
}
