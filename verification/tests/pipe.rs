use wire::pipe::{buffer_len, pipe_loop, Report, Turn, DEFAULT_BUF_LEN};

#[test]
fn default_buffer_is_64_kib() {
    assert_eq!(DEFAULT_BUF_LEN, 65536);
    assert_eq!(buffer_len(None), 65536);
}

#[test]
fn zero_buffer_falls_back_to_default() {
    assert_eq!(buffer_len(Some(0)), 65536);
}

#[test]
fn given_buffer_length_is_used() {
    assert_eq!(buffer_len(Some(1)), 1);
    assert_eq!(buffer_len(Some(5)), 5);
    assert_eq!(buffer_len(Some(65537)), 65537);
    assert_eq!(buffer_len(Some(usize::MAX)), usize::MAX);
}

#[test]
fn pipe_loop_alternates_read_and_write() {
    assert_eq!(pipe_loop(Turn::Read, Report::Read(Some(12))), Turn::Write(12));
    assert_eq!(pipe_loop(Turn::Write(12), Report::Wrote(true)), Turn::Read);
    assert_eq!(pipe_loop(Turn::Read, Report::Read(Some(0))), Turn::Write(0));
    assert_eq!(pipe_loop(Turn::Write(0), Report::Wrote(true)), Turn::Read);
}

#[test]
fn pipe_loop_stops_on_failure_only() {
    assert_eq!(pipe_loop(Turn::Read, Report::Read(None)), Turn::Failed);
    assert_eq!(pipe_loop(Turn::Write(3), Report::Wrote(false)), Turn::Failed);
    assert_eq!(pipe_loop(Turn::Failed, Report::Read(Some(1))), Turn::Failed);
    assert_eq!(pipe_loop(Turn::Failed, Report::Wrote(true)), Turn::Failed);
}

#[test]
fn pipe_loop_ignores_a_report_of_the_other_call() {
    assert_eq!(pipe_loop(Turn::Read, Report::Wrote(true)), Turn::Read);
    assert_eq!(pipe_loop(Turn::Read, Report::Wrote(false)), Turn::Read);
    assert_eq!(pipe_loop(Turn::Write(4), Report::Read(Some(9))), Turn::Write(4));
    assert_eq!(pipe_loop(Turn::Write(4), Report::Read(None)), Turn::Write(4));
}

#[test]
fn pipe_loop_copies_every_chunk_once() {
    let chunks = [5usize, 0, 3, 65536, 1];
    let mut turn = Turn::Read;
    let mut written = Vec::new();
    for len in chunks {
        turn = pipe_loop(turn, Report::Read(Some(len)));
        match turn {
            Turn::Write(count) => written.push(count),
            other => panic!("unexpected {:?}", other),
        }
        turn = pipe_loop(turn, Report::Wrote(true));
        assert_eq!(turn, Turn::Read);
    }
    assert_eq!(written, chunks);
}
