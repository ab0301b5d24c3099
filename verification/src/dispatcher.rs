//! The engine of the dispatcher, which runs on the main thread.
//!
//! In each round the dispatcher moves at most one byte from the queue of the
//! reader onto the queue of the network thread, and at most one byte from the
//! bounded channel to standard output.  The engine decides; the thread performs
//! each [`Request`] and hands back the [`Reply`].
use crate::signal::{Halt, Taken};
use crate::trace;
use crate::trace::{along, run_conserves, run_of_fixed_state};
use vstd::prelude::*;

verus! {

/// What the engine asks the thread to do next.
#[derive(Clone, Copy, Debug, PartialEq, Eq, Structural)]
pub enum Request {
    /// Look, without blocking, for one byte on the queue from the reader.
    TakeTyped,
    /// Send this byte onto the queue to the network thread.
    Forward(u8),
    /// Look, without blocking, for one byte on the bounded channel.
    TakeInbound,
    /// Write this byte to standard output.
    Print(u8),
    /// Stop the program.
    Stop(Halt),
}

/// What the thread reports back.
#[derive(Clone, Copy, Debug, PartialEq, Eq, Structural)]
pub enum Reply {
    /// The answer to [`Request::TakeTyped`] and to [`Request::TakeInbound`].
    Taken(Taken),
    /// The answer to [`Request::Forward`]: whether the queue took the byte.  It
    /// is unbounded and refuses only when its receiving end is gone.
    Forwarded(bool),
    /// The answer to [`Request::Print`]: the byte has been written.
    Printed,
}

/// The engine: the request that is out.
#[derive(Clone, Copy, Debug, PartialEq, Eq, Structural)]
pub struct Dispatcher {
    /// The request that is out.
    pub awaiting: Request,
}

/// The request that follows once `reply` has come in while `awaiting` was out.
/// The reader's queue is disconnected once the reader has stopped and the queue
/// is empty: that is the end of input.  The other two channels are
/// disconnected once the network thread has stopped.  A reply that does not
/// answer the request changes nothing, and a stopped engine stays stopped.
pub open spec fn next(awaiting: Request, reply: Reply) -> Request {
    match (awaiting, reply) {
        (Request::TakeTyped, Reply::Taken(Taken::Byte(byte))) => Request::Forward(byte),
        (Request::TakeTyped, Reply::Taken(Taken::Empty)) => Request::TakeInbound,
        (Request::TakeTyped, Reply::Taken(Taken::Disconnected)) => Request::Stop(Halt::EndOfInput),
        (Request::Forward(_), Reply::Forwarded(true)) => Request::TakeInbound,
        (Request::Forward(_), Reply::Forwarded(false)) => Request::Stop(Halt::Disconnected),
        (Request::TakeInbound, Reply::Taken(Taken::Byte(byte))) => Request::Print(byte),
        (Request::TakeInbound, Reply::Taken(Taken::Empty)) => Request::TakeTyped,
        (Request::TakeInbound, Reply::Taken(Taken::Disconnected)) => Request::Stop(
            Halt::Disconnected,
        ),
        (Request::Print(_), Reply::Printed) => Request::TakeTyped,
        _ => awaiting,
    }
}

impl Dispatcher {
    /// An engine at the start of its first round.
    pub fn new() -> (engine: Dispatcher)
        ensures
            engine.awaiting == Request::TakeTyped,
    {
        Dispatcher { awaiting: Request::TakeTyped }
    }

    /// The request that is out.
    pub fn request(&self) -> (request: Request)
        ensures
            request == self.awaiting,
    {
        self.awaiting
    }

    /// Takes in the thread's reply and gives the next request.
    pub fn step(&mut self, reply: Reply) -> (request: Request)
        ensures
            final(self).awaiting == next(old(self).awaiting, reply),
            request == final(self).awaiting,
    {
        let request = match (self.awaiting, reply) {
            (Request::TakeTyped, Reply::Taken(Taken::Byte(byte))) => Request::Forward(byte),
            (Request::TakeTyped, Reply::Taken(Taken::Empty)) => Request::TakeInbound,
            (Request::TakeTyped, Reply::Taken(Taken::Disconnected)) => Request::Stop(
                Halt::EndOfInput,
            ),
            (Request::Forward(_), Reply::Forwarded(true)) => Request::TakeInbound,
            (Request::Forward(_), Reply::Forwarded(false)) => Request::Stop(Halt::Disconnected),
            (Request::TakeInbound, Reply::Taken(Taken::Byte(byte))) => Request::Print(byte),
            (Request::TakeInbound, Reply::Taken(Taken::Empty)) => Request::TakeTyped,
            (Request::TakeInbound, Reply::Taken(Taken::Disconnected)) => Request::Stop(
                Halt::Disconnected,
            ),
            (Request::Print(_), Reply::Printed) => Request::TakeTyped,
            (awaiting, _) => awaiting,
        };
        self.awaiting = request;
        request
    }
}

/// The outbound byte that the engine holds: the one that is being forwarded.
pub open spec fn forwarding(awaiting: Request) -> Seq<u8> {
    match awaiting {
        Request::Forward(byte) => seq![byte],
        _ => Seq::empty(),
    }
}

/// The inbound byte that the engine holds: the one that is being printed.
pub open spec fn printing(awaiting: Request) -> Seq<u8> {
    match awaiting {
        Request::Print(byte) => seq![byte],
        _ => Seq::empty(),
    }
}

/// The byte that comes in from the reader's queue with `reply`.
pub open spec fn typed(awaiting: Request, reply: Reply) -> Seq<u8> {
    match (awaiting, reply) {
        (Request::TakeTyped, Reply::Taken(Taken::Byte(byte))) => seq![byte],
        _ => Seq::empty(),
    }
}

/// The byte that `reply` shows to have left for the network thread, or to have
/// been refused by the queue that leads there.
pub open spec fn forwarded(awaiting: Request, reply: Reply) -> Seq<u8> {
    match (awaiting, reply) {
        (Request::Forward(byte), Reply::Forwarded(_)) => seq![byte],
        _ => Seq::empty(),
    }
}

/// The byte that comes in from the bounded channel with `reply`.
pub open spec fn received(awaiting: Request, reply: Reply) -> Seq<u8> {
    match (awaiting, reply) {
        (Request::TakeInbound, Reply::Taken(Taken::Byte(byte))) => seq![byte],
        _ => Seq::empty(),
    }
}

/// The byte that `reply` shows to have been written to standard output.
pub open spec fn printed(awaiting: Request, reply: Reply) -> Seq<u8> {
    match (awaiting, reply) {
        (Request::Print(byte), Reply::Printed) => seq![byte],
        _ => Seq::empty(),
    }
}

/// The engine as a function from a state and a reply to the next state.
pub open spec fn engine() -> spec_fn(Request, Reply) -> Request {
    |awaiting: Request, reply: Reply| next(awaiting, reply)
}

/// The request that is out after the replies of `replies`, one after the
/// other.
pub open spec fn run(awaiting: Request, replies: Seq<Reply>) -> Request {
    trace::run(engine(), awaiting, replies)
}

/// The bytes that came in from the reader's queue during a run, in order.
pub open spec fn all_typed(awaiting: Request, replies: Seq<Reply>) -> Seq<u8> {
    along(engine(), |a: Request, r: Reply| typed(a, r), awaiting, replies)
}

/// The bytes that left for the network thread during a run, in order, the last
/// of them perhaps refused.
pub open spec fn all_forwarded(awaiting: Request, replies: Seq<Reply>) -> Seq<u8> {
    along(engine(), |a: Request, r: Reply| forwarded(a, r), awaiting, replies)
}

/// The bytes that came in from the bounded channel during a run, in order.
pub open spec fn all_received(awaiting: Request, replies: Seq<Reply>) -> Seq<u8> {
    along(engine(), |a: Request, r: Reply| received(a, r), awaiting, replies)
}

/// The bytes that were written to standard output during a run, in order.
pub open spec fn all_printed(awaiting: Request, replies: Seq<Reply>) -> Seq<u8> {
    along(engine(), |a: Request, r: Reply| printed(a, r), awaiting, replies)
}

/// Whatever the replies, over a whole run the bytes that left for the network
/// thread, followed by the byte that is being forwarded, are the byte that was
/// being forwarded at the start followed by the bytes taken from the reader's
/// queue, in their order.
pub proof fn run_keeps_outbound_bytes(awaiting: Request, replies: Seq<Reply>)
    ensures
        all_forwarded(awaiting, replies) + forwarding(run(awaiting, replies)) == forwarding(
            awaiting,
        ) + all_typed(awaiting, replies),
{
    let holding = |a: Request| forwarding(a);
    let leaving = |a: Request, r: Reply| forwarded(a, r);
    let entering = |a: Request, r: Reply| typed(a, r);
    assert forall|a: Request, r: Reply|
        leaving(a, r) + holding(#[trigger] engine()(a, r)) == holding(a) + entering(a, r) by {
        assert(forwarded(a, r) + forwarding(next(a, r)) =~= forwarding(a) + typed(a, r));
    }
    run_conserves(engine(), holding, leaving, entering, awaiting, replies);
}

/// Whatever the replies, over a whole run the bytes written to standard
/// output, followed by the byte that is being printed, are the byte that was
/// being printed at the start followed by the bytes taken from the bounded
/// channel, in their order.
pub proof fn run_keeps_inbound_bytes(awaiting: Request, replies: Seq<Reply>)
    ensures
        all_printed(awaiting, replies) + printing(run(awaiting, replies)) == printing(awaiting)
            + all_received(awaiting, replies),
{
    let holding = |a: Request| printing(a);
    let leaving = |a: Request, r: Reply| printed(a, r);
    let entering = |a: Request, r: Reply| received(a, r);
    assert forall|a: Request, r: Reply|
        leaving(a, r) + holding(#[trigger] engine()(a, r)) == holding(a) + entering(a, r) by {
        assert(printed(a, r) + printing(next(a, r)) =~= printing(a) + received(a, r));
    }
    run_conserves(engine(), holding, leaving, entering, awaiting, replies);
}

/// A channel whose far end is gone stops the program without an error of the
/// dispatcher's own, and the dispatcher holds no byte when it learns of it.
pub proof fn disconnect_stops_cleanly(awaiting: Request)
    requires
        awaiting is TakeTyped || awaiting is TakeInbound,
    ensures
        awaiting is TakeTyped ==> next(awaiting, Reply::Taken(Taken::Disconnected))
            == Request::Stop(Halt::EndOfInput),
        awaiting is TakeInbound ==> next(awaiting, Reply::Taken(Taken::Disconnected))
            == Request::Stop(Halt::Disconnected),
        forwarding(awaiting).len() == 0,
        printing(awaiting).len() == 0,
        !Halt::EndOfInput.spec_is_error(),
        !Halt::Disconnected.spec_is_error(),
{
}

/// An engine that has stopped stays as it is whatever is reported to it, and
/// moves nothing more.
pub proof fn stopped_engine_moves_nothing(awaiting: Request, replies: Seq<Reply>)
    requires
        awaiting is Stop,
    ensures
        run(awaiting, replies) == awaiting,
        all_forwarded(awaiting, replies) == Seq::<u8>::empty(),
        all_printed(awaiting, replies) == Seq::<u8>::empty(),
{
    run_of_fixed_state(engine(), |a: Request, r: Reply| forwarded(a, r), awaiting, replies);
    run_of_fixed_state(engine(), |a: Request, r: Reply| printed(a, r), awaiting, replies);
}

} // verus!
