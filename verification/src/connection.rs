//! The decisions of the non-blocking socket.
//!
//! The socket itself is held by the program.  Each call it makes on the socket
//! is reported here as a plain value, and the functions of this module say what
//! the call means: data, nothing yet, or the end of the connection.
use vstd::prelude::*;

verus! {

/// How many bytes a single read asks the socket for while draining it.
pub const READ_CHUNK: usize = 1;

/// An error of the socket, as its callers see it.
#[derive(Clone, Copy, Debug, PartialEq, Eq, Structural)]
pub enum SocketError {
    /// The call could not proceed without blocking.
    WouldBlock,
    /// The peer closed the connection.
    Closed,
    /// Any other failure.
    Failed,
}

/// What a call on the socket reported when no bytes come back with it.
#[derive(Clone, Copy, Debug, PartialEq, Eq, Structural)]
pub enum Attempt {
    /// The call went through and moved this many bytes.
    Done(usize),
    /// The socket is not ready.
    WouldBlock,
    /// The peer refused or closed the connection.
    Closed,
    /// Any other failure.
    Failed,
}

/// What a non-blocking read reported.
#[derive(Debug)]
pub enum ReadAttempt {
    /// The bytes that were read, in the order of their arrival.  No bytes at
    /// all means that the peer closed the connection.
    Bytes(Vec<u8>),
    /// Nothing is available right now.
    WouldBlock,
    /// The read failed.
    Failed,
}

/// The result of a write, as its caller sees it: the number of bytes that the
/// socket took, or the error.  Nothing is retried; a socket that is not ready
/// is an error like any other.
pub open spec fn spec_written(attempt: Attempt) -> Result<usize, SocketError> {
    match attempt {
        Attempt::Done(count) => Ok(count),
        Attempt::WouldBlock => Err(SocketError::WouldBlock),
        Attempt::Closed => Err(SocketError::Closed),
        Attempt::Failed => Err(SocketError::Failed),
    }
}

/// The result of a write, as its caller sees it.
#[verifier::when_used_as_spec(spec_written)]
pub fn written(attempt: Attempt) -> (result: Result<usize, SocketError>)
    ensures
        result == spec_written(attempt),
{
    match attempt {
        Attempt::Done(count) => Ok(count),
        Attempt::WouldBlock => Err(SocketError::WouldBlock),
        Attempt::Closed => Err(SocketError::Closed),
        Attempt::Failed => Err(SocketError::Failed),
    }
}

/// Whether the socket has something to read, given what a peek of no bytes
/// reported: yes when the peek went through, no when the socket is not ready,
/// and the error otherwise.
pub open spec fn spec_readable(peek: Attempt) -> Result<bool, SocketError> {
    match peek {
        Attempt::Done(_) => Ok(true),
        Attempt::WouldBlock => Ok(false),
        Attempt::Closed => Err(SocketError::Closed),
        Attempt::Failed => Err(SocketError::Failed),
    }
}

/// Whether the socket has something to read, given what a peek of no bytes
/// reported.
#[verifier::when_used_as_spec(spec_readable)]
pub fn readable(peek: Attempt) -> (result: Result<bool, SocketError>)
    ensures
        result == spec_readable(peek),
{
    match peek {
        Attempt::Done(_) => Ok(true),
        Attempt::WouldBlock => Ok(false),
        Attempt::Closed => Err(SocketError::Closed),
        Attempt::Failed => Err(SocketError::Failed),
    }
}

/// The error that a failed call reports, if it failed.
pub open spec fn spec_error_of(attempt: Attempt) -> Option<SocketError> {
    match attempt {
        Attempt::Done(_) => None,
        Attempt::WouldBlock => Some(SocketError::WouldBlock),
        Attempt::Closed => Some(SocketError::Closed),
        Attempt::Failed => Some(SocketError::Failed),
    }
}

/// The error that a failed call reports, if it failed.
#[verifier::when_used_as_spec(spec_error_of)]
pub fn error_of(attempt: Attempt) -> (error: Option<SocketError>)
    ensures
        error == spec_error_of(attempt),
{
    match attempt {
        Attempt::Done(_) => None,
        Attempt::WouldBlock => Some(SocketError::WouldBlock),
        Attempt::Closed => Some(SocketError::Closed),
        Attempt::Failed => Some(SocketError::Failed),
    }
}

/// A stage of waiting, in blocking mode, until the socket has something to
/// read.  Each stage but the last two names the call that is made next.
#[derive(Clone, Copy, Debug, PartialEq, Eq, Structural)]
pub enum Wait {
    /// Switch the socket to blocking mode.
    Block,
    /// Peek at no bytes, which returns once data or the close is there.
    Peek,
    /// Switch the socket back to non-blocking mode.
    Unblock,
    /// The socket has something to read and is in non-blocking mode again.
    Ready,
    /// A call failed.  Nothing further is done, so a failure before the last
    /// call leaves the socket in blocking mode.
    Failed(SocketError),
}

impl Wait {
    /// The stage that waiting starts in.
    pub fn new() -> (wait: Wait)
        ensures
            wait == Wait::Block,
    {
        Wait::Block
    }

    /// The stage that follows once the call of this stage has reported
    /// `attempt`.  The last two stages make no call and stay as they are.
    pub open spec fn spec_step(self, attempt: Attempt) -> Wait {
        match self {
            Wait::Ready => self,
            Wait::Failed(_) => self,
            _ => match spec_error_of(attempt) {
                Some(error) => Wait::Failed(error),
                None => match self {
                    Wait::Block => Wait::Peek,
                    Wait::Peek => Wait::Unblock,
                    _ => Wait::Ready,
                },
            },
        }
    }

    /// The stage that follows once the call of this stage has reported
    /// `attempt`.
    #[verifier::when_used_as_spec(spec_step)]
    pub fn step(self, attempt: Attempt) -> (next: Wait)
        ensures
            next == self.spec_step(attempt),
    {
        match self {
            Wait::Ready => self,
            Wait::Failed(_) => self,
            _ => match error_of(attempt) {
                Some(error) => Wait::Failed(error),
                None => match self {
                    Wait::Block => Wait::Peek,
                    Wait::Peek => Wait::Unblock,
                    _ => Wait::Ready,
                },
            },
        }
    }

    /// The result of waiting, once it is over: `None` while a call is still to
    /// be made.
    pub open spec fn spec_outcome(self) -> Option<Result<(), SocketError>> {
        match self {
            Wait::Ready => Some(Ok(())),
            Wait::Failed(error) => Some(Err(error)),
            _ => None,
        }
    }

    /// The result of waiting, once it is over.
    #[verifier::when_used_as_spec(spec_outcome)]
    pub fn outcome(self) -> (result: Option<Result<(), SocketError>>)
        ensures
            result == self.spec_outcome(),
    {
        match self {
            Wait::Ready => Some(Ok(())),
            Wait::Failed(error) => Some(Err(error)),
            _ => None,
        }
    }
}

/// Waiting ends ready exactly when its three calls all go through, and then
/// it has made exactly those three.
pub proof fn wait_succeeds_after_three_calls(first: Attempt, second: Attempt, third: Attempt)
    ensures
        Wait::Block.spec_step(first).spec_step(second).spec_step(third) == Wait::Ready <==> (first is Done
            && second is Done && third is Done),
        Wait::Block.spec_step(first).spec_step(second).spec_outcome() != Some(
            Ok::<(), SocketError>(()),
        ),
{
}

/// The bytes gathered so far while the socket is drained of what it has.
#[derive(Debug)]
pub struct Drain {
    received: Vec<u8>,
}

/// Where draining stands after a read.
#[derive(Debug)]
pub enum Drained {
    /// Read again; the bytes so far are kept.
    More(Drain),
    /// The socket has no more for now; these are all the bytes, in the order
    /// of their arrival.
    Done(Vec<u8>),
    /// The connection is over.
    Failed(SocketError),
}

/// Where draining stands, over sequences of bytes.
pub ghost enum Progress {
    More(Seq<u8>),
    Done(Seq<u8>),
    Failed(SocketError),
}

impl View for Drain {
    type V = Seq<u8>;

    closed spec fn view(&self) -> Seq<u8> {
        self.received@
    }
}

impl View for Drained {
    type V = Progress;

    open spec fn view(&self) -> Progress {
        match self {
            Drained::More(drain) => Progress::More(drain@),
            Drained::Done(bytes) => Progress::Done(bytes@),
            Drained::Failed(error) => Progress::Failed(*error),
        }
    }
}

/// The bytes that a read brought.
pub open spec fn bytes_of(read: ReadAttempt) -> Seq<u8> {
    match read {
        ReadAttempt::Bytes(chunk) => chunk@,
        _ => Seq::empty(),
    }
}

/// Where draining stands after one more read, with `gathered` in hand before
/// it.  A read of some bytes adds them at the end and asks for another read; a
/// socket that is not ready ends the draining with what was gathered; a read of
/// no bytes means that the peer closed the connection, and like any other
/// failure it ends the draining with the error.
pub open spec fn drain_step(gathered: Seq<u8>, read: ReadAttempt) -> Progress {
    match read {
        ReadAttempt::Bytes(chunk) => if chunk@.len() == 0 {
            Progress::Failed(SocketError::Closed)
        } else {
            Progress::More(gathered + chunk@)
        },
        ReadAttempt::WouldBlock => Progress::Done(gathered),
        ReadAttempt::Failed => Progress::Failed(SocketError::Failed),
    }
}

/// Where draining stands after the reads of `reads`, one after the other.
/// Once the draining has ended, further reads change nothing.
pub open spec fn drain_run(start: Progress, reads: Seq<ReadAttempt>) -> Progress
    decreases reads.len(),
{
    if reads.len() == 0 {
        start
    } else {
        match drain_run(start, reads.drop_last()) {
            Progress::More(gathered) => drain_step(gathered, reads.last()),
            ended => ended,
        }
    }
}

/// All the bytes that the reads of `reads` brought, in order.
pub open spec fn payload(reads: Seq<ReadAttempt>) -> Seq<u8>
    decreases reads.len(),
{
    if reads.len() == 0 {
        Seq::empty()
    } else {
        payload(reads.drop_last()) + bytes_of(reads.last())
    }
}

impl Drain {
    /// A draining that has gathered nothing yet.
    pub fn new() -> (drain: Drain)
        ensures
            drain@ == Seq::<u8>::empty(),
    {
        Drain { received: Vec::new() }
    }

    /// Takes in what the next read reported.
    pub fn step(self, read: ReadAttempt) -> (next: Drained)
        ensures
            next@ == drain_step(self@, read),
    {
        let mut received = self.received;
        match read {
            ReadAttempt::Bytes(mut chunk) => {
                if chunk.len() == 0 {
                    Drained::Failed(SocketError::Closed)
                } else {
                    received.append(&mut chunk);
                    Drained::More(Drain { received })
                }
            },
            ReadAttempt::WouldBlock => Drained::Done(received),
            ReadAttempt::Failed => Drained::Failed(SocketError::Failed),
        }
    }
}

/// However the arriving bytes are cut into reads, as long as each read brings
/// some, draining gathers exactly those bytes in their order and asks for more;
/// the first read that finds the socket not ready then hands all of them out.
pub proof fn drain_gathers_every_chunk(gathered: Seq<u8>, reads: Seq<ReadAttempt>)
    requires
        forall|i: int| 0 <= i < reads.len() ==> (#[trigger] reads[i]) is Bytes && bytes_of(reads[i]).len() > 0,
    ensures
        drain_run(Progress::More(gathered), reads) == Progress::More(gathered + payload(reads)),
        drain_run(Progress::More(gathered), reads.push(ReadAttempt::WouldBlock)) == Progress::Done(
            gathered + payload(reads),
        ),
    decreases reads.len(),
{
    if reads.len() > 0 {
        drain_gathers_every_chunk(gathered, reads.drop_last());
        assert(reads.last() is Bytes);
        assert(gathered + payload(reads.drop_last()) + bytes_of(reads.last()) =~= gathered + payload(
            reads,
        ));
    } else {
        assert(gathered + payload(reads) =~= gathered);
    }
    assert(reads.push(ReadAttempt::WouldBlock).drop_last() =~= reads);
}

/// A socket that is not ready at the first read yields no bytes and no error.
pub proof fn drain_of_idle_socket_is_empty()
    ensures
        drain_step(Seq::empty(), ReadAttempt::WouldBlock) == Progress::Done(Seq::empty()),
{
}

} // verus!
