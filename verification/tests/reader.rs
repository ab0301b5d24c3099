use wire::reader::{Reply, Request, StdinReader};
use wire::signal::Halt;

fn pushes_of(engine: &mut StdinReader, chunk: Vec<u8>) -> Vec<u8> {
    let mut pushed = Vec::new();
    let mut request = engine.step(Reply::Read(Some(chunk)));
    while let Request::Push(byte) = request {
        pushed.push(byte);
        request = engine.step(Reply::Pushed(true));
    }
    pushed
}

#[test]
fn reader_asks_for_a_read_of_the_buffer_length() {
    let engine = StdinReader::new(5);
    assert_eq!(engine.request(), Request::Read(5));
    let engine = StdinReader::new(94876);
    assert_eq!(engine.request(), Request::Read(94876));
}

#[test]
fn reader_pushes_hello_byte_by_byte() {
    let mut engine = StdinReader::new(5);
    assert_eq!(pushes_of(&mut engine, b"hello".to_vec()), b"hello".to_vec());
    assert_eq!(engine.request(), Request::Read(5));
}

#[test]
fn reader_keeps_order_across_reads() {
    let mut engine = StdinReader::new(4);
    let mut pushed = Vec::new();
    for chunk in [b"abcd".to_vec(), b"e".to_vec(), b"fgh".to_vec()] {
        pushed.extend(pushes_of(&mut engine, chunk));
        assert_eq!(engine.request(), Request::Read(4));
    }
    assert_eq!(pushed, b"abcdefgh".to_vec());
}

#[test]
fn zero_length_read_ends_the_reader_without_error() {
    let mut engine = StdinReader::new(5);
    assert_eq!(engine.step(Reply::Read(Some(vec![]))), Request::Stop(Halt::EndOfInput));
    assert!(!Halt::EndOfInput.is_error());
    assert_eq!(engine.step(Reply::Read(Some(vec![1]))), Request::Stop(Halt::EndOfInput));
    assert_eq!(engine.step(Reply::Pushed(true)), Request::Stop(Halt::EndOfInput));
}

#[test]
fn end_of_input_comes_after_buffered_bytes() {
    let mut engine = StdinReader::new(3);
    assert_eq!(engine.step(Reply::Read(Some(vec![1, 2]))), Request::Push(1));
    assert_eq!(engine.step(Reply::Read(Some(vec![]))), Request::Push(1));
    assert_eq!(engine.step(Reply::Pushed(true)), Request::Push(2));
    assert_eq!(engine.step(Reply::Pushed(true)), Request::Read(3));
    assert_eq!(engine.step(Reply::Read(Some(vec![]))), Request::Stop(Halt::EndOfInput));
}

#[test]
fn failed_read_is_tried_again() {
    let mut engine = StdinReader::new(8);
    for _ in 0..3 {
        assert_eq!(engine.step(Reply::Read(None)), Request::Read(8));
    }
    assert_eq!(engine.step(Reply::Read(Some(vec![b'x']))), Request::Push(b'x'));
}

#[test]
fn refused_push_ends_the_reader_silently() {
    let mut engine = StdinReader::new(8);
    assert_eq!(engine.step(Reply::Read(Some(vec![1, 2, 3]))), Request::Push(1));
    assert_eq!(engine.step(Reply::Pushed(true)), Request::Push(2));
    assert_eq!(engine.step(Reply::Pushed(false)), Request::Stop(Halt::Disconnected));
    assert!(!Halt::Disconnected.is_error());
    assert_eq!(engine.step(Reply::Pushed(true)), Request::Stop(Halt::Disconnected));
}

#[test]
fn reader_ignores_a_reply_to_another_request() {
    let mut engine = StdinReader::new(2);
    assert_eq!(engine.step(Reply::Pushed(true)), Request::Read(2));
    assert_eq!(engine.step(Reply::Pushed(false)), Request::Read(2));
    assert_eq!(engine.step(Reply::Read(Some(vec![5, 6]))), Request::Push(5));
    assert_eq!(engine.step(Reply::Read(Some(vec![7]))), Request::Push(5));
    assert_eq!(engine.step(Reply::Read(None)), Request::Push(5));
    assert_eq!(engine.step(Reply::Pushed(true)), Request::Push(6));
    assert_eq!(engine.step(Reply::Pushed(true)), Request::Read(2));
}
