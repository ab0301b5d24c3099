//! The engine of the network thread.
//!
//! The thread owns the socket and an overflow buffer.  In each round it writes
//! at most one outbound byte to the socket, reads what the socket has into the
//! buffer, and offers the buffer's bytes, oldest first, to the bounded channel
//! that leads to the dispatcher.  The engine decides; the thread performs each
//! [`Request`] and hands back the [`Reply`].
use crate::connection::SocketError;
use crate::signal::{Halt, Offered, Taken};
use crate::trace;
use crate::trace::{along, run_conserves, run_of_fixed_state};
use std::collections::VecDeque;
use vstd::prelude::*;

verus! {

/// What the engine asks the thread to do next.
#[derive(Clone, Copy, Debug, PartialEq, Eq, Structural)]
pub enum Request {
    /// Look, without blocking, for one byte on the queue from the dispatcher.
    Take,
    /// Write this byte to the socket.
    Write(u8),
    /// Ask the socket whether it has something to read.
    Poll,
    /// Read everything that the socket has right now.
    Drain,
    /// Offer this byte, without blocking, to the bounded channel.
    Offer(u8),
    /// Stop the thread.
    Stop(Halt),
}

/// What the thread reports back.
#[derive(Debug)]
pub enum Reply {
    /// The answer to [`Request::Take`].
    Taken(Taken),
    /// The answer to [`Request::Write`]: the count of bytes written, or the
    /// error.
    Wrote(Result<usize, SocketError>),
    /// The answer to [`Request::Poll`].
    Polled(Result<bool, SocketError>),
    /// The answer to [`Request::Drain`]: the bytes in the order of their
    /// arrival, or the error.
    Drained(Result<Vec<u8>, SocketError>),
    /// The answer to [`Request::Offer`].
    Offered(Offered),
}

/// The engine: the overflow buffer and the request that is out.
#[derive(Debug)]
pub struct NetworkIo {
    overflow: VecDeque<u8>,
    awaiting: Request,
}

/// The engine as contracts see it.
pub ghost struct NetworkState {
    /// The bytes read from the socket and not yet offered, oldest first.
    pub overflow: Seq<u8>,
    /// The request that is out.
    pub awaiting: Request,
}

impl View for NetworkIo {
    type V = NetworkState;

    closed spec fn view(&self) -> NetworkState {
        NetworkState { overflow: self.overflow@, awaiting: self.awaiting }
    }
}

/// The start of the forwarding phase: the oldest byte of the buffer leaves it
/// and is offered; with an empty buffer the next round begins.
pub open spec fn forward(overflow: Seq<u8>) -> NetworkState {
    if overflow.len() == 0 {
        NetworkState { overflow, awaiting: Request::Take }
    } else {
        NetworkState { overflow: overflow.drop_first(), awaiting: Request::Offer(overflow[0]) }
    }
}

/// The engine after `reply`.  A reply that does not answer the request that is
/// out changes nothing, and a stopped engine stays stopped.
pub open spec fn next(state: NetworkState, reply: Reply) -> NetworkState {
    let halted = |halt: Halt| NetworkState { overflow: state.overflow, awaiting: Request::Stop(halt) };
    let asking = |request: Request| NetworkState { overflow: state.overflow, awaiting: request };
    match (state.awaiting, reply) {
        (Request::Take, Reply::Taken(Taken::Byte(byte))) => asking(Request::Write(byte)),
        (Request::Take, Reply::Taken(Taken::Empty)) => asking(Request::Poll),
        (Request::Take, Reply::Taken(Taken::Disconnected)) => halted(Halt::Disconnected),
        (Request::Write(_), Reply::Wrote(Ok(_))) => asking(Request::Poll),
        (Request::Write(_), Reply::Wrote(Err(_))) => halted(Halt::Fatal),
        (Request::Poll, Reply::Polled(Ok(true))) => asking(Request::Drain),
        (Request::Poll, Reply::Polled(Ok(false))) => forward(state.overflow),
        (Request::Poll, Reply::Polled(Err(_))) => halted(Halt::Fatal),
        (Request::Drain, Reply::Drained(Ok(bytes))) => forward(state.overflow + bytes@),
        (Request::Drain, Reply::Drained(Err(_))) => halted(Halt::Fatal),
        (Request::Offer(_), Reply::Offered(Offered::Sent)) => forward(state.overflow),
        (Request::Offer(byte), Reply::Offered(Offered::Full)) => NetworkState {
            overflow: seq![byte] + state.overflow,
            awaiting: Request::Take,
        },
        (Request::Offer(byte), Reply::Offered(Offered::Disconnected)) => NetworkState {
            overflow: seq![byte] + state.overflow,
            awaiting: Request::Stop(Halt::Disconnected),
        },
        _ => state,
    }
}

impl NetworkIo {
    /// An engine with an empty buffer, at the start of its first round.
    pub fn new() -> (engine: NetworkIo)
        ensures
            engine@ == (NetworkState { overflow: Seq::empty(), awaiting: Request::Take }),
    {
        NetworkIo { overflow: VecDeque::new(), awaiting: Request::Take }
    }

    /// The request that is out.
    pub fn request(&self) -> (request: Request)
        ensures
            request == self@.awaiting,
    {
        self.awaiting
    }

    /// How many bytes wait in the overflow buffer.
    pub fn buffered(&self) -> (count: usize)
        ensures
            count == self@.overflow.len(),
    {
        self.overflow.len()
    }

    fn begin_forward(&mut self)
        ensures
            final(self)@ == forward(old(self)@.overflow),
    {
        match self.overflow.pop_front() {
            Some(byte) => {
                self.awaiting = Request::Offer(byte);
            },
            None => {
                self.awaiting = Request::Take;
            },
        }
    }

    fn absorb(&mut self, bytes: &Vec<u8>)
        ensures
            final(self)@.overflow == old(self)@.overflow + bytes@,
            final(self)@.awaiting == old(self)@.awaiting,
    {
        let mut index: usize = 0;
        while index < bytes.len()
            invariant
                index <= bytes.len(),
                self.awaiting == old(self).awaiting,
                self.overflow@ == old(self).overflow@ + bytes@.take(index as int),
            decreases bytes.len() - index,
        {
            self.overflow.push_back(bytes[index]);
            assert(bytes@.take(index as int).push(bytes@[index as int]) =~= bytes@.take(index + 1));
            index += 1;
        }
        assert(bytes@.take(index as int) =~= bytes@);
    }

    /// Takes in the thread's reply and gives the next request.
    pub fn step(&mut self, reply: Reply) -> (request: Request)
        ensures
            final(self)@ == next(old(self)@, reply),
            request == final(self)@.awaiting,
    {
        match (self.awaiting, reply) {
            (Request::Take, Reply::Taken(Taken::Byte(byte))) => {
                self.awaiting = Request::Write(byte);
            },
            (Request::Take, Reply::Taken(Taken::Empty)) => {
                self.awaiting = Request::Poll;
            },
            (Request::Take, Reply::Taken(Taken::Disconnected)) => {
                self.awaiting = Request::Stop(Halt::Disconnected);
            },
            (Request::Write(_), Reply::Wrote(Ok(_))) => {
                self.awaiting = Request::Poll;
            },
            (Request::Write(_), Reply::Wrote(Err(_))) => {
                self.awaiting = Request::Stop(Halt::Fatal);
            },
            (Request::Poll, Reply::Polled(Ok(true))) => {
                self.awaiting = Request::Drain;
            },
            (Request::Poll, Reply::Polled(Ok(false))) => {
                self.begin_forward();
            },
            (Request::Poll, Reply::Polled(Err(_))) => {
                self.awaiting = Request::Stop(Halt::Fatal);
            },
            (Request::Drain, Reply::Drained(Ok(bytes))) => {
                self.absorb(&bytes);
                self.begin_forward();
            },
            (Request::Drain, Reply::Drained(Err(_))) => {
                self.awaiting = Request::Stop(Halt::Fatal);
            },
            (Request::Offer(_), Reply::Offered(Offered::Sent)) => {
                self.begin_forward();
            },
            (Request::Offer(byte), Reply::Offered(Offered::Full)) => {
                self.overflow.push_front(byte);
                self.awaiting = Request::Take;
            },
            (Request::Offer(byte), Reply::Offered(Offered::Disconnected)) => {
                self.overflow.push_front(byte);
                self.awaiting = Request::Stop(Halt::Disconnected);
            },
            _ => {},
        }
        self.awaiting
    }
}

/// The inbound bytes that the engine holds, oldest first: the byte that is on
/// offer, if one is, and then the overflow buffer.
pub open spec fn held(state: NetworkState) -> Seq<u8> {
    match state.awaiting {
        Request::Offer(byte) => seq![byte] + state.overflow,
        _ => state.overflow,
    }
}

/// The outbound byte that the engine holds: the one that is being written.
pub open spec fn outgoing(state: NetworkState) -> Seq<u8> {
    match state.awaiting {
        Request::Write(byte) => seq![byte],
        _ => Seq::empty(),
    }
}

/// The bytes that come in from the socket with `reply`.
pub open spec fn absorbed(state: NetworkState, reply: Reply) -> Seq<u8> {
    match (state.awaiting, reply) {
        (Request::Drain, Reply::Drained(Ok(bytes))) => bytes@,
        _ => Seq::empty(),
    }
}

/// The byte that `reply` shows to have gone into the bounded channel.
pub open spec fn delivered(state: NetworkState, reply: Reply) -> Seq<u8> {
    match (state.awaiting, reply) {
        (Request::Offer(byte), Reply::Offered(Offered::Sent)) => seq![byte],
        _ => Seq::empty(),
    }
}

/// The byte that comes in from the dispatcher with `reply`.
pub open spec fn accepted(state: NetworkState, reply: Reply) -> Seq<u8> {
    match (state.awaiting, reply) {
        (Request::Take, Reply::Taken(Taken::Byte(byte))) => seq![byte],
        _ => Seq::empty(),
    }
}

/// The byte that `reply` shows to have been written to the socket.
pub open spec fn written(state: NetworkState, reply: Reply) -> Seq<u8> {
    match (state.awaiting, reply) {
        (Request::Write(byte), Reply::Wrote(Ok(_))) => seq![byte],
        _ => Seq::empty(),
    }
}

/// The byte that `reply` shows the socket to have refused.
pub open spec fn refused(state: NetworkState, reply: Reply) -> Seq<u8> {
    match (state.awaiting, reply) {
        (Request::Write(byte), Reply::Wrote(Err(_))) => seq![byte],
        _ => Seq::empty(),
    }
}

/// The engine as a function from a state and a reply to the next state.
pub open spec fn engine() -> spec_fn(NetworkState, Reply) -> NetworkState {
    |state: NetworkState, reply: Reply| next(state, reply)
}

/// The engine after the replies of `replies`, one after the other.
pub open spec fn run(state: NetworkState, replies: Seq<Reply>) -> NetworkState {
    trace::run(engine(), state, replies)
}

/// The bytes that came in from the socket during a run, in order.
pub open spec fn all_absorbed(state: NetworkState, replies: Seq<Reply>) -> Seq<u8> {
    along(engine(), |s: NetworkState, r: Reply| absorbed(s, r), state, replies)
}

/// The bytes that went into the bounded channel during a run, in order.
pub open spec fn all_delivered(state: NetworkState, replies: Seq<Reply>) -> Seq<u8> {
    along(engine(), |s: NetworkState, r: Reply| delivered(s, r), state, replies)
}

/// The bytes that came in from the dispatcher during a run, in order.
pub open spec fn all_accepted(state: NetworkState, replies: Seq<Reply>) -> Seq<u8> {
    along(engine(), |s: NetworkState, r: Reply| accepted(s, r), state, replies)
}

/// The bytes that were written to the socket during a run, in order.
pub open spec fn all_written(state: NetworkState, replies: Seq<Reply>) -> Seq<u8> {
    along(engine(), |s: NetworkState, r: Reply| written(s, r), state, replies)
}

/// The bytes that the socket refused during a run.
pub open spec fn all_refused(state: NetworkState, replies: Seq<Reply>) -> Seq<u8> {
    along(engine(), |s: NetworkState, r: Reply| refused(s, r), state, replies)
}

/// A step neither loses, invents, repeats nor reorders an inbound byte: what
/// went into the channel, followed by what the engine holds afterwards, is what
/// it held before, followed by what came in from the socket.  This holds of a
/// full channel as of any other reply.
pub proof fn step_keeps_inbound_bytes(state: NetworkState, reply: Reply)
    ensures
        delivered(state, reply) + held(next(state, reply)) == held(state) + absorbed(state, reply),
{
    let after = next(state, reply);
    match (state.awaiting, reply) {
        (Request::Poll, Reply::Polled(Ok(false))) => {
            assert(held(forward(state.overflow)) =~= state.overflow);
        },
        (Request::Drain, Reply::Drained(Ok(bytes))) => {
            assert(held(forward(state.overflow + bytes@)) =~= state.overflow + bytes@);
        },
        (Request::Offer(byte), Reply::Offered(Offered::Sent)) => {
            assert(held(forward(state.overflow)) =~= state.overflow);
        },
        _ => {},
    }
    assert(delivered(state, reply) + held(after) =~= held(state) + absorbed(state, reply));
}

/// A channel that is full sends the offered byte back to the place it came
/// from: the engine holds the same bytes in the same order as before the
/// offer, and the round ends.
pub proof fn full_channel_puts_byte_back(state: NetworkState, byte: u8)
    requires
        state.awaiting == Request::Offer(byte),
    ensures
        next(state, Reply::Offered(Offered::Full)).overflow == held(state),
        next(state, Reply::Offered(Offered::Full)).awaiting == Request::Take,
{
}

/// Whatever the replies, over a whole run the bytes that went into the channel,
/// followed by the bytes still held, are the bytes held at the start followed by
/// all that came in from the socket, in the order of their arrival.
pub proof fn run_keeps_inbound_bytes(state: NetworkState, replies: Seq<Reply>)
    ensures
        all_delivered(state, replies) + held(run(state, replies)) == held(state) + all_absorbed(
            state,
            replies,
        ),
{
    let holding = |s: NetworkState| held(s);
    let leaving = |s: NetworkState, r: Reply| delivered(s, r);
    let entering = |s: NetworkState, r: Reply| absorbed(s, r);
    assert forall|s: NetworkState, r: Reply|
        leaving(s, r) + holding(#[trigger] engine()(s, r)) == holding(s) + entering(s, r) by {
        step_keeps_inbound_bytes(s, r);
    }
    run_conserves(engine(), holding, leaving, entering, state, replies);
}

/// Over a whole run the bytes written to the socket, the byte that the socket
/// refused, if it refused one, and the byte whose write is still out are, in
/// this order, the byte whose write was out at the start and the bytes taken
/// from the dispatcher's queue since.  The socket refuses at most one byte, and
/// that stops the engine.
pub proof fn run_keeps_outbound_bytes(state: NetworkState, replies: Seq<Reply>)
    ensures
        all_written(state, replies) + all_refused(state, replies) + outgoing(run(state, replies))
            == outgoing(state) + all_accepted(state, replies),
        all_refused(state, replies).len() <= 1,
        all_refused(state, replies).len() == 1 ==> run(state, replies).awaiting is Stop,
    decreases replies.len(),
{
    if replies.len() == 0 {
        assert(all_written(state, replies) + all_refused(state, replies) + outgoing(state)
            =~= outgoing(state) + all_accepted(state, replies));
    } else {
        let before = replies.drop_last();
        let last = replies.last();
        let middle = run(state, before);
        run_keeps_outbound_bytes(state, before);
        let after = next(middle, last);
        assert(after == run(state, replies));
        assert(written(middle, last) + refused(middle, last) + outgoing(after) =~= outgoing(middle)
            + accepted(middle, last));
        assert(all_written(state, replies) == all_written(state, before) + written(middle, last));
        assert(all_refused(state, replies) == all_refused(state, before) + refused(middle, last));
        assert(all_accepted(state, replies) == all_accepted(state, before) + accepted(
            middle,
            last,
        ));
        if all_refused(state, before).len() == 1 {
            assert(middle.awaiting is Stop);
            assert(after == middle);
            assert(all_written(state, replies) =~= all_written(state, before));
            assert(all_refused(state, replies) =~= all_refused(state, before));
            assert(all_accepted(state, replies) =~= all_accepted(state, before));
        } else {
            assert(all_refused(state, before) =~= Seq::<u8>::empty());
            assert(all_written(state, replies) + all_refused(state, replies) + outgoing(after)
                =~= all_written(state, before) + (written(middle, last) + refused(middle, last)
                + outgoing(after)));
            assert(all_written(state, before) + (outgoing(middle) + accepted(middle, last)) =~= (
            all_written(state, before) + all_refused(state, before) + outgoing(middle)) + accepted(
                middle,
                last,
            ));
            assert(outgoing(state) + all_accepted(state, replies) =~= (outgoing(state)
                + all_accepted(state, before)) + accepted(middle, last));
        }
    }
}

/// Any failure of the socket, on a write, a poll or a drain, stops the engine
/// as a fatal error, and so does a write that the socket was not ready for.
pub proof fn socket_failure_is_fatal(state: NetworkState, error: SocketError)
    ensures
        state.awaiting is Write ==> next(state, Reply::Wrote(Err(error))).awaiting
            == Request::Stop(Halt::Fatal),
        state.awaiting is Poll ==> next(state, Reply::Polled(Err(error))).awaiting
            == Request::Stop(Halt::Fatal),
        state.awaiting is Drain ==> next(state, Reply::Drained(Err(error))).awaiting
            == Request::Stop(Halt::Fatal),
        Halt::Fatal.spec_is_error(),
{
}

/// An engine that has stopped stays as it is whatever is reported to it:
/// after the stop no byte is written to the socket and none goes into the
/// channel.
pub proof fn stopped_engine_moves_nothing(state: NetworkState, replies: Seq<Reply>)
    requires
        state.awaiting is Stop,
    ensures
        run(state, replies) == state,
        all_written(state, replies) == Seq::<u8>::empty(),
        all_delivered(state, replies) == Seq::<u8>::empty(),
{
    run_of_fixed_state(engine(), |s: NetworkState, r: Reply| written(s, r), state, replies);
    run_of_fixed_state(engine(), |s: NetworkState, r: Reply| delivered(s, r), state, replies);
}

/// A channel whose far end is gone stops the engine without an error.
pub proof fn disconnect_stops_quietly(state: NetworkState)
    ensures
        state.awaiting is Take ==> next(state, Reply::Taken(Taken::Disconnected)).awaiting
            == Request::Stop(Halt::Disconnected),
        state.awaiting is Offer ==> next(state, Reply::Offered(Offered::Disconnected)).awaiting
            == Request::Stop(Halt::Disconnected),
        !Halt::Disconnected.spec_is_error(),
{
}

/// So many replies that the channel took the byte.
pub open spec fn taken_times(count: nat) -> Seq<Reply> {
    Seq::new(count, |i: int| Reply::Offered(Offered::Sent))
}

/// The forwarding phase hands over as many bytes as the channel takes, oldest
/// first.  If the channel takes `count` bytes of the buffer, exactly the first
/// `count` go into it, in their order, and the engine goes on with the rest.
/// If the channel is then full, the rest stays in the buffer, in its order,
/// for the next round.
pub proof fn forwarding_hands_over_oldest_first(overflow: Seq<u8>, count: nat)
    requires
        count <= overflow.len(),
    ensures
        run(forward(overflow), taken_times(count)) == forward(overflow.skip(count as int)),
        all_delivered(forward(overflow), taken_times(count)) == overflow.take(count as int),
        count < overflow.len() ==> next(
            run(forward(overflow), taken_times(count)),
            Reply::Offered(Offered::Full),
        ) == (NetworkState { overflow: overflow.skip(count as int), awaiting: Request::Take }),
    decreases count,
{
    let first = forward(overflow);
    let replies = taken_times(count);
    if count == 0 {
        assert(overflow.skip(0) =~= overflow);
        assert(all_delivered(first, replies) =~= overflow.take(0));
    } else {
        let fewer = (count - 1) as nat;
        forwarding_hands_over_oldest_first(overflow, fewer);
        assert(replies.drop_last() =~= taken_times(fewer));
        let middle = forward(overflow.skip(fewer as int));
        assert(middle.awaiting == Request::Offer(overflow[fewer as int]));
        assert(overflow.skip(fewer as int).drop_first() =~= overflow.skip(count as int));
        assert(next(middle, replies.last()) == forward(overflow.skip(count as int)));
        assert(overflow.take(fewer as int) + seq![overflow[fewer as int]] =~= overflow.take(
            count as int,
        ));
    }
    if count < overflow.len() {
        let rest = overflow.skip(count as int);
        assert(seq![rest[0]] + rest.drop_first() =~= rest);
    }
}

} // verus!
