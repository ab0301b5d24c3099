//! A plain copier: read from a source into a buffer, write all of it to a
//! sink, again and again.  It keeps no bytes back and knows no backpressure.
use vstd::prelude::*;

verus! {

/// The length of the buffer where none is asked for.
pub const DEFAULT_BUF_LEN: usize = 65536;

/// The length of the copier's buffer: the length asked for, or
/// [`DEFAULT_BUF_LEN`] where none or a length of zero is asked for.
pub open spec fn spec_buffer_len(wanted: Option<usize>) -> usize {
    match wanted {
        Some(len) if len != 0 => len,
        _ => DEFAULT_BUF_LEN,
    }
}

/// The length of the copier's buffer.
#[verifier::when_used_as_spec(spec_buffer_len)]
pub fn buffer_len(wanted: Option<usize>) -> (len: usize)
    ensures
        len == spec_buffer_len(wanted),
        len > 0,
{
    match wanted {
        Some(len) => if len != 0 {
            len
        } else {
            DEFAULT_BUF_LEN
        },
        None => DEFAULT_BUF_LEN,
    }
}

/// What the copier does next.
#[derive(Clone, Copy, Debug, PartialEq, Eq, Structural)]
pub enum Turn {
    /// Read from the source into the buffer.
    Read,
    /// Write the first so many bytes of the buffer to the sink, all of them.
    Write(usize),
    /// Stop: the source or the sink failed.
    Failed,
}

/// What came of the copier's last call.
#[derive(Clone, Copy, Debug, PartialEq, Eq, Structural)]
pub enum Report {
    /// A read: how many bytes it brought, or `None` when it failed.
    Read(Option<usize>),
    /// A write: whether all bytes went out.
    Wrote(bool),
}

/// One turn of the copier's loop.  A read that went through is followed by
/// the write of what it brought, even of no bytes; a write that went through
/// is followed by the next read; a call that failed stops the copier.  Nothing
/// else stops it.  A report that does not belong to the call that is out
/// changes nothing.
pub open spec fn spec_pipe_loop(at: Turn, report: Report) -> Turn {
    match (at, report) {
        (Turn::Read, Report::Read(Some(count))) => Turn::Write(count),
        (Turn::Read, Report::Read(None)) => Turn::Failed,
        (Turn::Write(_), Report::Wrote(true)) => Turn::Read,
        (Turn::Write(_), Report::Wrote(false)) => Turn::Failed,
        _ => at,
    }
}

/// One turn of the copier's loop.
#[verifier::when_used_as_spec(spec_pipe_loop)]
pub fn pipe_loop(at: Turn, report: Report) -> (next: Turn)
    ensures
        next == spec_pipe_loop(at, report),
{
    match (at, report) {
        (Turn::Read, Report::Read(Some(count))) => Turn::Write(count),
        (Turn::Read, Report::Read(None)) => Turn::Failed,
        (Turn::Write(_), Report::Wrote(true)) => Turn::Read,
        (Turn::Write(_), Report::Wrote(false)) => Turn::Failed,
        _ => at,
    }
}

} // verus!
