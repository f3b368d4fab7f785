//! The in-memory byte sink.

use termion::ByteSink;
use termion::VecSink;

#[test]
fn starts_empty() {
    let sink = VecSink::new();
    assert!(sink.bytes().is_empty());
}

#[test]
fn accepts_every_byte_in_order() {
    let mut sink = VecSink::new();
    assert_eq!(sink.write(b"ab").unwrap(), 2);
    assert_eq!(sink.write(b"").unwrap(), 0);
    assert_eq!(sink.write(b"c").unwrap(), 1);
    assert!(sink.flush().is_ok());
    assert_eq!(sink.into_bytes().as_slice(), b"abc");
}
