use std::io::BufRead;

use serverize::relay::{is_disconnect_class, IoFault, LineRelay, RelayEnd};

/// Drives one relay session over an in-memory source, collecting everything
/// the session hands out for writing.
fn drive(source: &[u8]) -> (Vec<u8>, RelayEnd) {
    let mut session = LineRelay::new();
    let mut sink = Vec::new();
    for line in std::io::Cursor::new(source).lines() {
        let payload = session.render(&line.unwrap());
        sink.extend_from_slice(payload.as_bytes());
    }
    let end = session.on_source_end();
    (sink, end)
}

#[test]
fn echo_line_round_trip() {
    // A `cat` child hands every line back unchanged; the relay restores the
    // terminator that the line reader stripped.
    let mut session = LineRelay::new();
    let out = session.render(&"hello".to_string());
    assert_eq!(out, "hello\n");
}

#[test]
fn empty_line_is_forwarded_as_bare_terminator() {
    let mut session = LineRelay::new();
    let out = session.render(&String::new());
    assert_eq!(out, "\n");
}

#[test]
fn lines_forwarded_in_order() {
    let mut session = LineRelay::new();
    let lines = ["first", "second", "third"];
    let mut written = Vec::new();
    for l in &lines {
        written.push(session.render(&l.to_string()));
    }
    assert_eq!(written, vec!["first\n", "second\n", "third\n"]);
}

#[test]
fn source_end_is_clean() {
    let mut session = LineRelay::new();
    session.render(&"last".to_string());
    assert_eq!(session.on_source_end(), RelayEnd::Clean);
}

#[test]
fn broken_pipe_on_write_is_clean() {
    let mut session = LineRelay::new();
    session.render(&"mid-write".to_string());
    assert_eq!(session.on_write_error(IoFault::BrokenPipe), RelayEnd::Clean);
}

#[test]
fn connection_reset_on_write_is_clean() {
    let mut session = LineRelay::new();
    session.render(&"mid-write".to_string());
    assert_eq!(session.on_write_error(IoFault::ConnectionReset), RelayEnd::Clean);
}

#[test]
fn other_write_fault_is_reported() {
    let mut session = LineRelay::new();
    session.render(&"line".to_string());
    assert_eq!(session.on_write_error(IoFault::Other), RelayEnd::Failed(IoFault::Other));
}

#[test]
fn read_fault_is_reported() {
    let mut session = LineRelay::new();
    assert_eq!(session.on_read_error(IoFault::Other), RelayEnd::Failed(IoFault::Other));
}

#[test]
fn sessions_are_independent() {
    // Two concurrent connections each drive their own session; ending one
    // leaves the other relaying untouched.
    let mut first = LineRelay::new();
    let mut second = LineRelay::new();
    assert_eq!(first.render(&"a".to_string()), "a\n");
    assert_eq!(second.render(&"b".to_string()), "b\n");
    assert_eq!(first.on_source_end(), RelayEnd::Clean);
    assert_eq!(second.render(&"c".to_string()), "c\n");
    assert_eq!(second.on_source_end(), RelayEnd::Clean);
}

#[test]
fn stream_of_lines_is_copied_in_order() {
    let (sink, end) = drive(b"hello\nworld\n");
    assert_eq!(sink, b"hello\nworld\n");
    assert_eq!(end, RelayEnd::Clean);
}

#[test]
fn empty_stream_copies_nothing() {
    let (sink, end) = drive(b"");
    assert_eq!(sink, b"");
    assert_eq!(end, RelayEnd::Clean);
}

#[test]
fn unterminated_final_line_is_forwarded_terminated() {
    let (sink, end) = drive(b"hello\ntail");
    assert_eq!(sink, b"hello\ntail\n");
    assert_eq!(end, RelayEnd::Clean);
}

#[test]
fn disconnect_classification() {
    assert!(is_disconnect_class(&IoFault::BrokenPipe));
    assert!(is_disconnect_class(&IoFault::ConnectionReset));
    assert!(!is_disconnect_class(&IoFault::NotConnected));
    assert!(!is_disconnect_class(&IoFault::Other));
}

