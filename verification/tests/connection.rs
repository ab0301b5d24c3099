use wire::connection::{
    error_of, readable, written, Attempt, Drain, Drained, ReadAttempt, SocketError, Wait,
    READ_CHUNK,
};

fn drain_all(reads: Vec<ReadAttempt>) -> Option<Result<Vec<u8>, SocketError>> {
    let mut drain = Drain::new();
    for read in reads {
        match drain.step(read) {
            Drained::More(next) => drain = next,
            Drained::Done(bytes) => return Some(Ok(bytes)),
            Drained::Failed(error) => return Some(Err(error)),
        }
    }
    None
}

#[test]
fn write_reports_count_or_error() {
    assert_eq!(written(Attempt::Done(5)), Ok(5));
    assert_eq!(written(Attempt::Done(0)), Ok(0));
    assert_eq!(written(Attempt::WouldBlock), Err(SocketError::WouldBlock));
    assert_eq!(written(Attempt::Closed), Err(SocketError::Closed));
    assert_eq!(written(Attempt::Failed), Err(SocketError::Failed));
}

#[test]
fn poll_tells_ready_from_not_ready() {
    assert_eq!(readable(Attempt::Done(0)), Ok(true));
    assert_eq!(readable(Attempt::Done(3)), Ok(true));
    assert_eq!(readable(Attempt::WouldBlock), Ok(false));
    assert_eq!(readable(Attempt::Closed), Err(SocketError::Closed));
    assert_eq!(readable(Attempt::Failed), Err(SocketError::Failed));
}

#[test]
fn error_of_attempt() {
    assert_eq!(error_of(Attempt::Done(1)), None);
    assert_eq!(error_of(Attempt::WouldBlock), Some(SocketError::WouldBlock));
    assert_eq!(error_of(Attempt::Closed), Some(SocketError::Closed));
    assert_eq!(error_of(Attempt::Failed), Some(SocketError::Failed));
}

#[test]
fn drain_reads_one_byte_at_a_time() {
    assert_eq!(READ_CHUNK, 1);
}

#[test]
fn drain_of_idle_socket_is_empty_not_an_error() {
    assert_eq!(drain_all(vec![ReadAttempt::WouldBlock]), Some(Ok(vec![])));
}

#[test]
fn drain_gathers_bytes_in_order() {
    let reads = vec![
        ReadAttempt::Bytes(vec![0x41]),
        ReadAttempt::Bytes(vec![0x42]),
        ReadAttempt::WouldBlock,
    ];
    assert_eq!(drain_all(reads), Some(Ok(vec![0x41, 0x42])));
}

#[test]
fn drain_is_the_same_however_the_bytes_are_chunked() {
    let message: Vec<u8> = (0..=255u8).cycle().take(1000).collect();
    for chunk_len in [1usize, 2, 3, 7, 64, 999, 1000, 5000] {
        let mut reads: Vec<ReadAttempt> =
            message.chunks(chunk_len).map(|chunk| ReadAttempt::Bytes(chunk.to_vec())).collect();
        reads.push(ReadAttempt::WouldBlock);
        assert_eq!(drain_all(reads), Some(Ok(message.clone())), "chunks of {}", chunk_len);
    }
}

#[test]
fn drain_asks_for_more_after_each_chunk() {
    let drain = Drain::new();
    let next = drain.step(ReadAttempt::Bytes(vec![1, 2, 3]));
    assert!(matches!(next, Drained::More(_)));
    assert_eq!(drain_all(vec![ReadAttempt::Bytes(vec![1]), ReadAttempt::Bytes(vec![2])]), None);
}

#[test]
fn drain_treats_end_of_stream_as_closed() {
    assert_eq!(drain_all(vec![ReadAttempt::Bytes(vec![])]), Some(Err(SocketError::Closed)));
    assert_eq!(
        drain_all(vec![ReadAttempt::Bytes(vec![9, 9]), ReadAttempt::Bytes(vec![])]),
        Some(Err(SocketError::Closed))
    );
}

#[test]
fn drain_passes_on_a_failed_read() {
    assert_eq!(drain_all(vec![ReadAttempt::Failed]), Some(Err(SocketError::Failed)));
    assert_eq!(
        drain_all(vec![ReadAttempt::Bytes(vec![1]), ReadAttempt::Failed, ReadAttempt::WouldBlock]),
        Some(Err(SocketError::Failed))
    );
}

#[test]
fn wait_makes_three_calls() {
    let wait = Wait::new();
    assert_eq!(wait, Wait::Block);
    assert_eq!(wait.outcome(), None);
    let wait = wait.step(Attempt::Done(0));
    assert_eq!(wait, Wait::Peek);
    assert_eq!(wait.outcome(), None);
    let wait = wait.step(Attempt::Done(0));
    assert_eq!(wait, Wait::Unblock);
    assert_eq!(wait.outcome(), None);
    let wait = wait.step(Attempt::Done(0));
    assert_eq!(wait, Wait::Ready);
    assert_eq!(wait.outcome(), Some(Ok(())));
    assert_eq!(wait.step(Attempt::Failed), Wait::Ready);
}

#[test]
fn wait_stops_at_the_first_failure() {
    assert_eq!(Wait::Block.step(Attempt::Failed), Wait::Failed(SocketError::Failed));
    assert_eq!(Wait::Peek.step(Attempt::Closed), Wait::Failed(SocketError::Closed));
    assert_eq!(Wait::Unblock.step(Attempt::WouldBlock), Wait::Failed(SocketError::WouldBlock));
    let failed = Wait::Peek.step(Attempt::Failed);
    assert_eq!(failed.outcome(), Some(Err(SocketError::Failed)));
    assert_eq!(failed.step(Attempt::Done(0)), failed);
}
