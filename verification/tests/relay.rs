use flv_tls_proxy::relay::{copy, ChunkSink, RelayError, RelayPipe, RelayStatus};

/// A whole transfer reproduces the source byte-for-byte and reports the
/// exact count.
#[test]
fn copy_round_trip_exact() {
    let source: Vec<u8> = b"The quick brown fox jumps over the lazy dog".to_vec();
    let mut sink = ChunkSink::new(usize::MAX);
    let r = copy(&source, &mut sink);
    assert_eq!(r, Ok(43));
    assert_eq!(sink.data, source);
}

/// Partial writes change nothing about what arrives: the sink accepts a few
/// bytes per write, and still receives every byte once, in order.
#[test]
fn copy_round_trip_with_partial_writes() {
    let source: Vec<u8> = (0u8..=255).collect();
    let mut sink = ChunkSink::new(7);
    let r = copy(&source, &mut sink);
    assert_eq!(r, Ok(256));
    assert_eq!(sink.data, source);
}

/// Copying appends to what the sink already holds.
#[test]
fn copy_appends_to_sink() {
    let mut sink = ChunkSink::new(3);
    let first: Vec<u8> = b"one".to_vec();
    let second: Vec<u8> = b"two".to_vec();
    assert_eq!(copy(&first, &mut sink), Ok(3));
    assert_eq!(copy(&second, &mut sink), Ok(3));
    assert_eq!(sink.data, b"onetwo".to_vec());
}

/// An empty source terminates at once with a count of zero and no error.
#[test]
fn copy_empty_source_is_zero_and_ok() {
    let source: Vec<u8> = Vec::new();
    let mut sink = ChunkSink::new(16);
    let r = copy(&source, &mut sink);
    assert_eq!(r, Ok(0));
    assert!(sink.data.is_empty());
}

/// An empty source succeeds even on a sink that accepts nothing: nothing is
/// ever offered to it.
#[test]
fn copy_empty_source_ignores_dead_sink() {
    let source: Vec<u8> = Vec::new();
    let mut sink = ChunkSink::new(0);
    assert_eq!(copy(&source, &mut sink), Ok(0));
}

/// A sink that accepts zero bytes while data remains fails with the
/// write-zero condition, delivers nothing, and returns rather than spinning.
#[test]
fn copy_write_zero_fails_fast() {
    let source: Vec<u8> = b"payload".to_vec();
    let mut sink = ChunkSink::new(0);
    let r = copy(&source, &mut sink);
    assert_eq!(r, Err(RelayError::WriteZero));
    assert!(sink.data.is_empty());
}

/// The pipe counts exactly the bytes the sink accepted, across writes.
#[test]
fn pipe_counts_accepted_bytes() {
    let mut pipe = RelayPipe::new();
    assert_eq!(pipe.status(), RelayStatus::Running);
    assert_eq!(pipe.transferred(), 0);
    let chunk: Vec<u8> = b"abcdef".to_vec();
    assert_eq!(pipe.on_write(&chunk, 4), None);
    assert_eq!(pipe.transferred(), 4);
    assert_eq!(pipe.on_write(&chunk, 6), None);
    assert_eq!(pipe.transferred(), 10);
    pipe.on_source_end();
    assert_eq!(pipe.status(), RelayStatus::Draining);
    let total = pipe.on_flush_ok();
    assert_eq!(total, 10);
    assert_eq!(pipe.status(), RelayStatus::Done);
}

/// A zero-byte write of a non-empty chunk fails the pipe with write-zero.
#[test]
fn pipe_write_zero_is_fatal() {
    let mut pipe = RelayPipe::new();
    let chunk: Vec<u8> = b"x".to_vec();
    let fault = pipe.on_write(&chunk, 0);
    assert_eq!(fault, Some(RelayError::WriteZero));
    assert_eq!(pipe.status(), RelayStatus::Failed(RelayError::WriteZero));
    assert_eq!(pipe.transferred(), 0);
}

/// An error from a read, write or flush stops the pipe with an error status.
#[test]
fn pipe_io_error_stops_transfer() {
    let mut pipe = RelayPipe::new();
    let chunk: Vec<u8> = b"data".to_vec();
    assert_eq!(pipe.on_write(&chunk, 4), None);
    pipe.on_io_error();
    assert_eq!(pipe.status(), RelayStatus::Failed(RelayError::Io));
    assert_eq!(pipe.transferred(), 4);
}

/// A flush error while draining also fails the pipe.
#[test]
fn pipe_flush_error_fails_while_draining() {
    let mut pipe = RelayPipe::new();
    pipe.on_source_end();
    pipe.on_io_error();
    assert_eq!(pipe.status(), RelayStatus::Failed(RelayError::Io));
}

/// The sink accepts at most its bound per write and reports what it took.
#[test]
fn sink_accepts_bounded_prefix() {
    let mut sink = ChunkSink::new(2);
    let chunk: Vec<u8> = b"abcd".to_vec();
    assert_eq!(sink.write(&chunk), 2);
    assert_eq!(sink.data, b"ab".to_vec());
    let rest: Vec<u8> = b"cd".to_vec();
    assert_eq!(sink.write(&rest), 2);
    assert_eq!(sink.data, b"abcd".to_vec());
    sink.flush();
    assert_eq!(sink.data, b"abcd".to_vec());
}
