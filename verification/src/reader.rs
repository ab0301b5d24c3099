//! The engine of the thread that reads standard input.
//!
//! The thread reads a chunk and pushes its bytes, one by one and in order, onto
//! the queue that leads to the dispatcher.  The engine decides; the thread
//! performs each [`Request`] and hands back the [`Reply`].
use crate::signal::Halt;
use crate::trace;
use crate::trace::{along, run_conserves, run_of_fixed_state};
use std::collections::VecDeque;
use vstd::prelude::*;

verus! {

/// What the engine asks the thread to do next.
#[derive(Clone, Copy, Debug, PartialEq, Eq, Structural)]
pub enum Request {
    /// Read from standard input into a buffer of this many bytes.
    Read(usize),
    /// Push this byte onto the queue.
    Push(u8),
    /// Stop the thread, which closes the queue.
    Stop(Halt),
}

/// What the thread reports back.
#[derive(Debug)]
pub enum Reply {
    /// The answer to [`Request::Read`]: the bytes that were read, in order, or
    /// `None` when the read failed.  No bytes at all mean the end of input.
    Read(Option<Vec<u8>>),
    /// The answer to [`Request::Push`]: whether the queue took the byte.  It
    /// refuses only when its receiving end is gone.
    Pushed(bool),
}

/// The engine: the rest of the chunk in hand and the request that is out.
#[derive(Debug)]
pub struct StdinReader {
    chunk: VecDeque<u8>,
    buffer_len: usize,
    awaiting: Request,
}

/// The engine as contracts see it.
pub ghost struct ReaderState {
    /// The bytes read and not yet pushed, but for the one being pushed.
    pub chunk: Seq<u8>,
    /// The length of the buffer that each read fills.
    pub buffer_len: usize,
    /// The request that is out.
    pub awaiting: Request,
}

impl View for StdinReader {
    type V = ReaderState;

    closed spec fn view(&self) -> ReaderState {
        ReaderState { chunk: self.chunk@, buffer_len: self.buffer_len, awaiting: self.awaiting }
    }
}

/// The engine with `chunk` in hand and nothing out: the first byte leaves the
/// chunk to be pushed; with nothing in hand the next read is asked for.
pub open spec fn proceed(chunk: Seq<u8>, buffer_len: usize) -> ReaderState {
    if chunk.len() == 0 {
        ReaderState { chunk, buffer_len, awaiting: Request::Read(buffer_len) }
    } else {
        ReaderState { chunk: chunk.drop_first(), buffer_len, awaiting: Request::Push(chunk[0]) }
    }
}

/// The engine after `reply`.  A read of no bytes is the end of input and stops
/// the engine; a read that failed is passed over and tried again; a queue that
/// refuses a byte stops the engine, which keeps the byte.  A reply that does not answer the request
/// that is out changes nothing, and a stopped engine stays stopped.
pub open spec fn next(state: ReaderState, reply: Reply) -> ReaderState {
    match (state.awaiting, reply) {
        (Request::Read(_), Reply::Read(Some(bytes))) => if bytes@.len() == 0 {
            ReaderState { awaiting: Request::Stop(Halt::EndOfInput), ..state }
        } else {
            proceed(state.chunk + bytes@, state.buffer_len)
        },
        (Request::Push(_), Reply::Pushed(true)) => proceed(state.chunk, state.buffer_len),
        (Request::Push(byte), Reply::Pushed(false)) => ReaderState {
            chunk: seq![byte] + state.chunk,
            awaiting: Request::Stop(Halt::Disconnected),
            ..state
        },
        _ => state,
    }
}

impl StdinReader {
    /// An engine with nothing in hand, about to read into a buffer of
    /// `buffer_len` bytes.
    pub fn new(buffer_len: usize) -> (engine: StdinReader)
        ensures
            engine@ == (ReaderState {
                chunk: Seq::empty(),
                buffer_len,
                awaiting: Request::Read(buffer_len),
            }),
    {
        StdinReader { chunk: VecDeque::new(), buffer_len, awaiting: Request::Read(buffer_len) }
    }

    /// The request that is out.
    pub fn request(&self) -> (request: Request)
        ensures
            request == self@.awaiting,
    {
        self.awaiting
    }

    fn proceed(&mut self)
        ensures
            final(self)@ == proceed(old(self)@.chunk, old(self)@.buffer_len),
    {
        match self.chunk.pop_front() {
            Some(byte) => {
                self.awaiting = Request::Push(byte);
            },
            None => {
                self.awaiting = Request::Read(self.buffer_len);
            },
        }
    }

    fn absorb(&mut self, bytes: &Vec<u8>)
        ensures
            final(self)@ == (ReaderState { chunk: old(self)@.chunk + bytes@, ..old(self)@ }),
    {
        let mut index: usize = 0;
        while index < bytes.len()
            invariant
                index <= bytes.len(),
                self.awaiting == old(self).awaiting,
                self.buffer_len == old(self).buffer_len,
                self.chunk@ == old(self).chunk@ + bytes@.take(index as int),
            decreases bytes.len() - index,
        {
            self.chunk.push_back(bytes[index]);
            assert(bytes@.take(index as int).push(bytes@[index as int]) =~= bytes@.take(index + 1));
            index += 1;
        }
        assert(bytes@.take(index as int) =~= bytes@);
    }

    /// Takes in the thread's reply and gives the next request.
    pub fn step(&mut self, reply: Reply) -> (request: Request)
        ensures
            final(self)@ == next(old(self)@, reply),
            request == final(self)@.awaiting,
    {
        match (self.awaiting, reply) {
            (Request::Read(_), Reply::Read(Some(bytes))) => {
                if bytes.len() == 0 {
                    self.awaiting = Request::Stop(Halt::EndOfInput);
                } else {
                    self.absorb(&bytes);
                    self.proceed();
                }
            },
            (Request::Push(_), Reply::Pushed(true)) => {
                self.proceed();
            },
            (Request::Push(byte), Reply::Pushed(false)) => {
                self.chunk.push_front(byte);
                self.awaiting = Request::Stop(Halt::Disconnected);
            },
            _ => {},
        }
        self.awaiting
    }
}

/// The bytes that the engine holds, oldest first: the byte that is being
/// pushed, if one is, and then the rest of the chunk.
pub open spec fn held(state: ReaderState) -> Seq<u8> {
    match state.awaiting {
        Request::Push(byte) => seq![byte] + state.chunk,
        _ => state.chunk,
    }
}

/// The bytes that come in from standard input with `reply`.
pub open spec fn read(state: ReaderState, reply: Reply) -> Seq<u8> {
    match (state.awaiting, reply) {
        (Request::Read(_), Reply::Read(Some(bytes))) => bytes@,
        _ => Seq::empty(),
    }
}

/// The byte that `reply` shows to have gone onto the queue.
pub open spec fn pushed(state: ReaderState, reply: Reply) -> Seq<u8> {
    match (state.awaiting, reply) {
        (Request::Push(byte), Reply::Pushed(true)) => seq![byte],
        _ => Seq::empty(),
    }
}

/// The engine as a function from a state and a reply to the next state.
pub open spec fn engine() -> spec_fn(ReaderState, Reply) -> ReaderState {
    |state: ReaderState, reply: Reply| next(state, reply)
}

/// The engine after the replies of `replies`, one after the other.
pub open spec fn run(state: ReaderState, replies: Seq<Reply>) -> ReaderState {
    trace::run(engine(), state, replies)
}

/// The bytes that came in from standard input during a run, in order.
pub open spec fn all_read(state: ReaderState, replies: Seq<Reply>) -> Seq<u8> {
    along(engine(), |s: ReaderState, r: Reply| read(s, r), state, replies)
}

/// The bytes that went onto the queue during a run, in order.
pub open spec fn all_pushed(state: ReaderState, replies: Seq<Reply>) -> Seq<u8> {
    along(engine(), |s: ReaderState, r: Reply| pushed(s, r), state, replies)
}

/// A step neither loses, invents, repeats nor reorders a byte: what went onto
/// the queue, followed by what the engine holds afterwards, is what it held
/// before, followed by what was read.  A byte that the queue refuses stays in
/// the stopped engine's hands.
pub proof fn step_keeps_bytes(state: ReaderState, reply: Reply)
    ensures
        pushed(state, reply) + held(next(state, reply)) == held(state) + read(state, reply),
{
    match (state.awaiting, reply) {
        (Request::Read(_), Reply::Read(Some(bytes))) => {
            if bytes@.len() > 0 {
                assert(held(proceed(state.chunk + bytes@, state.buffer_len)) =~= state.chunk
                    + bytes@);
            }
        },
        (Request::Push(_), Reply::Pushed(true)) => {
            assert(held(proceed(state.chunk, state.buffer_len)) =~= state.chunk);
        },
        _ => {},
    }
    assert(pushed(state, reply) + held(next(state, reply)) =~= held(state) + read(state, reply));
}

/// Whatever the replies, over a whole run the bytes that went onto the queue,
/// followed by the bytes still held, are the bytes held at the start followed by
/// all that was read from standard input, in the order in which it was read.
pub proof fn run_keeps_bytes(state: ReaderState, replies: Seq<Reply>)
    ensures
        all_pushed(state, replies) + held(run(state, replies)) == held(state) + all_read(
            state,
            replies,
        ),
{
    let holding = |s: ReaderState| held(s);
    let leaving = |s: ReaderState, r: Reply| pushed(s, r);
    let entering = |s: ReaderState, r: Reply| read(s, r);
    assert forall|s: ReaderState, r: Reply|
        leaving(s, r) + holding(#[trigger] engine()(s, r)) == holding(s) + entering(s, r) by {
        step_keeps_bytes(s, r);
    }
    run_conserves(engine(), holding, leaving, entering, state, replies);
}

/// The end of input stops the engine without an error, and only once every
/// byte that was read before has gone onto the queue: a read is asked for only
/// with empty hands.
pub proof fn end_of_input_stops_cleanly(state: ReaderState, bytes: Vec<u8>)
    requires
        state.awaiting is Read,
        held(state).len() == 0,
        bytes@.len() == 0,
    ensures
        next(state, Reply::Read(Some(bytes))).awaiting == Request::Stop(Halt::EndOfInput),
        held(next(state, Reply::Read(Some(bytes)))).len() == 0,
        !Halt::EndOfInput.spec_is_error(),
{
}

/// From a fresh engine, whenever a read is asked for the engine holds nothing.
pub proof fn reads_with_empty_hands(buffer_len: usize, replies: Seq<Reply>)
    ensures
        ({
            let fresh = ReaderState {
                chunk: Seq::empty(),
                buffer_len,
                awaiting: Request::Read(buffer_len),
            };
            run(fresh, replies).awaiting is Read ==> held(run(fresh, replies)).len() == 0
        }),
    decreases replies.len(),
{
    if replies.len() > 0 {
        reads_with_empty_hands(buffer_len, replies.drop_last());
    }
}

/// A read that failed changes nothing: the same read is asked for again.
pub proof fn failed_read_is_retried(state: ReaderState)
    ensures
        next(state, Reply::Read(None)) == state,
{
}

/// An engine that has stopped stays as it is whatever is reported to it, and
/// pushes nothing more.
pub proof fn stopped_engine_moves_nothing(state: ReaderState, replies: Seq<Reply>)
    requires
        state.awaiting is Stop,
    ensures
        run(state, replies) == state,
        all_pushed(state, replies) == Seq::<u8>::empty(),
{
    run_of_fixed_state(engine(), |s: ReaderState, r: Reply| pushed(s, r), state, replies);
}

} // verus!
