use wire::connection::SocketError;
use wire::network::{NetworkIo, Reply, Request};
use wire::signal::{Halt, Offered, Taken};

fn drained(bytes: &[u8]) -> NetworkIo {
    let mut engine = NetworkIo::new();
    assert_eq!(engine.step(Reply::Taken(Taken::Empty)), Request::Poll);
    assert_eq!(engine.step(Reply::Polled(Ok(true))), Request::Drain);
    engine.step(Reply::Drained(Ok(bytes.to_vec())));
    engine
}

#[test]
fn round_starts_with_the_outbound_queue() {
    let engine = NetworkIo::new();
    assert_eq!(engine.request(), Request::Take);
    assert_eq!(engine.buffered(), 0);
}

#[test]
fn outbound_byte_is_written_at_once() {
    let mut engine = NetworkIo::new();
    assert_eq!(engine.step(Reply::Taken(Taken::Byte(b'h'))), Request::Write(b'h'));
    assert_eq!(engine.step(Reply::Wrote(Ok(1))), Request::Poll);
}

#[test]
fn at_most_one_outbound_byte_per_round() {
    let mut engine = NetworkIo::new();
    for byte in b"hello" {
        assert_eq!(engine.step(Reply::Taken(Taken::Byte(*byte))), Request::Write(*byte));
        assert_eq!(engine.step(Reply::Wrote(Ok(1))), Request::Poll);
        assert_eq!(engine.step(Reply::Polled(Ok(false))), Request::Take);
    }
}

#[test]
fn empty_outbound_queue_falls_through_to_the_poll() {
    let mut engine = NetworkIo::new();
    assert_eq!(engine.step(Reply::Taken(Taken::Empty)), Request::Poll);
    assert_eq!(engine.step(Reply::Polled(Ok(false))), Request::Take);
}

#[test]
fn readable_socket_is_drained_into_the_buffer_and_forwarded() {
    let mut engine = NetworkIo::new();
    engine.step(Reply::Taken(Taken::Empty));
    assert_eq!(engine.step(Reply::Polled(Ok(true))), Request::Drain);
    assert_eq!(engine.step(Reply::Drained(Ok(vec![0x41, 0x42]))), Request::Offer(0x41));
    assert_eq!(engine.buffered(), 1);
    assert_eq!(engine.step(Reply::Offered(Offered::Sent)), Request::Offer(0x42));
    assert_eq!(engine.buffered(), 0);
    assert_eq!(engine.step(Reply::Offered(Offered::Sent)), Request::Take);
}

#[test]
fn drain_of_nothing_ends_the_round() {
    let mut engine = NetworkIo::new();
    engine.step(Reply::Taken(Taken::Empty));
    engine.step(Reply::Polled(Ok(true)));
    assert_eq!(engine.step(Reply::Drained(Ok(vec![]))), Request::Take);
}

#[test]
fn full_channel_puts_the_byte_back_in_front() {
    let mut engine = drained(&[1, 2, 3]);
    assert_eq!(engine.request(), Request::Offer(1));
    assert_eq!(engine.step(Reply::Offered(Offered::Sent)), Request::Offer(2));
    assert_eq!(engine.step(Reply::Offered(Offered::Full)), Request::Take);
    assert_eq!(engine.buffered(), 2);
    assert_eq!(engine.step(Reply::Taken(Taken::Empty)), Request::Poll);
    assert_eq!(engine.step(Reply::Polled(Ok(false))), Request::Offer(2));
    assert_eq!(engine.step(Reply::Offered(Offered::Sent)), Request::Offer(3));
    assert_eq!(engine.step(Reply::Offered(Offered::Sent)), Request::Take);
    assert_eq!(engine.buffered(), 0);
}

#[test]
fn bytes_read_while_the_channel_is_full_queue_up_behind() {
    let mut engine = drained(&[1, 2]);
    assert_eq!(engine.step(Reply::Offered(Offered::Full)), Request::Take);
    engine.step(Reply::Taken(Taken::Empty));
    engine.step(Reply::Polled(Ok(true)));
    assert_eq!(engine.step(Reply::Drained(Ok(vec![3, 4]))), Request::Offer(1));
    let mut out = Vec::new();
    while let Request::Offer(byte) = engine.request() {
        out.push(byte);
        engine.step(Reply::Offered(Offered::Sent));
    }
    assert_eq!(out, vec![1, 2, 3, 4]);
}

#[test]
fn write_error_is_fatal() {
    for error in [SocketError::WouldBlock, SocketError::Closed, SocketError::Failed] {
        let mut engine = NetworkIo::new();
        engine.step(Reply::Taken(Taken::Byte(1)));
        assert_eq!(engine.step(Reply::Wrote(Err(error))), Request::Stop(Halt::Fatal));
    }
    assert!(Halt::Fatal.is_error());
}

#[test]
fn poll_error_is_fatal() {
    let mut engine = NetworkIo::new();
    engine.step(Reply::Taken(Taken::Empty));
    assert_eq!(engine.step(Reply::Polled(Err(SocketError::Failed))), Request::Stop(Halt::Fatal));
}

#[test]
fn drain_error_is_fatal() {
    let mut engine = NetworkIo::new();
    engine.step(Reply::Taken(Taken::Empty));
    engine.step(Reply::Polled(Ok(true)));
    assert_eq!(engine.step(Reply::Drained(Err(SocketError::Closed))), Request::Stop(Halt::Fatal));
}

#[test]
fn closed_outbound_queue_stops_the_thread() {
    let mut engine = NetworkIo::new();
    assert_eq!(engine.step(Reply::Taken(Taken::Disconnected)), Request::Stop(Halt::Disconnected));
}

#[test]
fn closed_inbound_channel_stops_the_thread() {
    let mut engine = drained(&[1, 2]);
    assert_eq!(
        engine.step(Reply::Offered(Offered::Disconnected)),
        Request::Stop(Halt::Disconnected)
    );
    assert_eq!(engine.buffered(), 2);
}

#[test]
fn stopped_engine_stays_stopped() {
    let mut engine = NetworkIo::new();
    engine.step(Reply::Taken(Taken::Byte(1)));
    engine.step(Reply::Wrote(Err(SocketError::Closed)));
    let replies = vec![
        Reply::Taken(Taken::Byte(2)),
        Reply::Wrote(Ok(1)),
        Reply::Polled(Ok(true)),
        Reply::Drained(Ok(vec![1, 2, 3])),
        Reply::Offered(Offered::Sent),
    ];
    for reply in replies {
        assert_eq!(engine.step(reply), Request::Stop(Halt::Fatal));
    }
    assert_eq!(engine.buffered(), 0);
}

#[test]
fn engine_ignores_a_reply_to_another_request() {
    let mut engine = NetworkIo::new();
    assert_eq!(engine.step(Reply::Wrote(Ok(1))), Request::Take);
    assert_eq!(engine.step(Reply::Polled(Ok(true))), Request::Take);
    assert_eq!(engine.step(Reply::Drained(Ok(vec![1]))), Request::Take);
    assert_eq!(engine.buffered(), 0);
    assert_eq!(engine.step(Reply::Offered(Offered::Full)), Request::Take);
    engine.step(Reply::Taken(Taken::Byte(9)));
    assert_eq!(engine.step(Reply::Taken(Taken::Byte(8))), Request::Write(9));
    assert_eq!(engine.step(Reply::Drained(Ok(vec![1]))), Request::Write(9));
    assert_eq!(engine.buffered(), 0);
}
