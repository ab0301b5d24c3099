//! The relay as a whole: the three engines, the channels between them, and
//! the four streams at its edges.
//!
//! This module is a model.  It says how one step of any thread changes the
//! whole, with the channels as plain queues, and proves what holds of every
//! state that the relay can reach: both streams keep their bytes and their
//! order, and the bounded channel never holds more than its capacity.
use crate::dispatcher;
use crate::network;
use crate::network::NetworkState;
use crate::reader;
use crate::reader::ReaderState;
use crate::signal::{Halt, Offered, Taken};
use vstd::prelude::*;

verus! {

/// The relay at one moment.
pub ghost struct Relay {
    /// The engine of the thread that reads standard input.
    pub reader: ReaderState,
    /// The request that the dispatcher has out.
    pub dispatcher: dispatcher::Request,
    /// The engine of the network thread.
    pub network: NetworkState,
    /// The queue from the reader to the dispatcher, oldest byte first.
    pub typed: Seq<u8>,
    /// The queue from the dispatcher to the network thread, oldest byte first.
    pub outbound: Seq<u8>,
    /// The bounded channel from the network thread to the dispatcher, oldest
    /// byte first.
    pub inbound: Seq<u8>,
    /// The capacity of the bounded channel.
    pub capacity: nat,
    /// Every byte read from standard input so far.
    pub stdin: Seq<u8>,
    /// Every byte written to the socket so far.
    pub sent: Seq<u8>,
    /// Every byte read from the socket so far.
    pub arrived: Seq<u8>,
    /// Every byte written to standard output so far.
    pub stdout: Seq<u8>,
}

/// One step of one thread.  A thread that reads from outside the relay comes
/// with what the outside gave it; what a channel answers follows from the
/// state of the relay.
pub ghost enum Move {
    /// The reader performs its request.  If that is a read, this is its reply.
    Reader(reader::Reply),
    /// The dispatcher performs its request.
    Dispatcher,
    /// The network thread performs its request.  If that is a call on the
    /// socket, this is its reply.
    Network(network::Reply),
}

/// The relay before any thread has moved.
pub open spec fn start(capacity: nat, buffer_len: usize) -> Relay {
    Relay {
        reader: ReaderState {
            chunk: Seq::empty(),
            buffer_len,
            awaiting: reader::Request::Read(buffer_len),
        },
        dispatcher: dispatcher::Request::TakeTyped,
        network: NetworkState { overflow: Seq::empty(), awaiting: network::Request::Take },
        typed: Seq::empty(),
        outbound: Seq::empty(),
        inbound: Seq::empty(),
        capacity,
        stdin: Seq::empty(),
        sent: Seq::empty(),
        arrived: Seq::empty(),
        stdout: Seq::empty(),
    }
}

/// What a look at the receiving end of `queue` finds: its oldest byte, or
/// nothing, or, once it is empty and the sender has stopped, the disconnect.
pub open spec fn look(queue: Seq<u8>, sender_stopped: bool) -> Taken {
    if queue.len() > 0 {
        Taken::Byte(queue[0])
    } else if sender_stopped {
        Taken::Disconnected
    } else {
        Taken::Empty
    }
}

/// `queue` after a look at its receiving end.
pub open spec fn looked(queue: Seq<u8>) -> Seq<u8> {
    if queue.len() > 0 {
        queue.drop_first()
    } else {
        queue
    }
}

/// The relay after the reader has performed its request.
pub open spec fn reader_moves(relay: Relay, outside: reader::Reply) -> Relay {
    match relay.reader.awaiting {
        reader::Request::Read(_) => Relay {
            reader: reader::next(relay.reader, outside),
            stdin: relay.stdin + reader::read(relay.reader, outside),
            ..relay
        },
        reader::Request::Push(byte) => if relay.dispatcher is Stop {
            Relay { reader: reader::next(relay.reader, reader::Reply::Pushed(false)), ..relay }
        } else {
            Relay {
                reader: reader::next(relay.reader, reader::Reply::Pushed(true)),
                typed: relay.typed.push(byte),
                ..relay
            }
        },
        reader::Request::Stop(_) => relay,
    }
}

/// The relay after the dispatcher has performed its request.
pub open spec fn dispatcher_moves(relay: Relay) -> Relay {
    match relay.dispatcher {
        dispatcher::Request::TakeTyped => Relay {
            dispatcher: dispatcher::next(
                relay.dispatcher,
                dispatcher::Reply::Taken(look(relay.typed, relay.reader.awaiting is Stop)),
            ),
            typed: looked(relay.typed),
            ..relay
        },
        dispatcher::Request::Forward(byte) => if relay.network.awaiting is Stop {
            Relay {
                dispatcher: dispatcher::next(relay.dispatcher, dispatcher::Reply::Forwarded(false)),
                ..relay
            }
        } else {
            Relay {
                dispatcher: dispatcher::next(relay.dispatcher, dispatcher::Reply::Forwarded(true)),
                outbound: relay.outbound.push(byte),
                ..relay
            }
        },
        dispatcher::Request::TakeInbound => Relay {
            dispatcher: dispatcher::next(
                relay.dispatcher,
                dispatcher::Reply::Taken(look(relay.inbound, relay.network.awaiting is Stop)),
            ),
            inbound: looked(relay.inbound),
            ..relay
        },
        dispatcher::Request::Print(byte) => Relay {
            dispatcher: dispatcher::next(relay.dispatcher, dispatcher::Reply::Printed),
            stdout: relay.stdout.push(byte),
            ..relay
        },
        dispatcher::Request::Stop(_) => relay,
    }
}

/// What the bounded channel answers to an offer.
pub open spec fn offer(relay: Relay) -> Offered {
    if relay.dispatcher is Stop {
        Offered::Disconnected
    } else if relay.inbound.len() < relay.capacity {
        Offered::Sent
    } else {
        Offered::Full
    }
}

/// The relay after the network thread has performed its request.
pub open spec fn network_moves(relay: Relay, outside: network::Reply) -> Relay {
    match relay.network.awaiting {
        network::Request::Take => Relay {
            network: network::next(
                relay.network,
                network::Reply::Taken(look(relay.outbound, relay.dispatcher is Stop)),
            ),
            outbound: looked(relay.outbound),
            ..relay
        },
        network::Request::Offer(byte) => Relay {
            network: network::next(relay.network, network::Reply::Offered(offer(relay))),
            inbound: if offer(relay) is Sent {
                relay.inbound.push(byte)
            } else {
                relay.inbound
            },
            ..relay
        },
        network::Request::Stop(_) => relay,
        _ => Relay {
            network: network::next(relay.network, outside),
            sent: relay.sent + network::written(relay.network, outside),
            arrived: relay.arrived + network::absorbed(relay.network, outside),
            ..relay
        },
    }
}

/// The relay after one move.
pub open spec fn step(relay: Relay, m: Move) -> Relay {
    match m {
        Move::Reader(outside) => reader_moves(relay, outside),
        Move::Dispatcher => dispatcher_moves(relay),
        Move::Network(outside) => network_moves(relay, outside),
    }
}

/// The relay after the moves of `moves`, one after the other, in whatever
/// order the threads happen to run.
pub open spec fn run(relay: Relay, moves: Seq<Move>) -> Relay
    decreases moves.len(),
{
    if moves.len() == 0 {
        relay
    } else {
        step(run(relay, moves.drop_last()), moves.last())
    }
}

/// The outbound bytes that are under way inside the relay, oldest first.
pub open spec fn outbound_under_way(relay: Relay) -> Seq<u8> {
    network::outgoing(relay.network) + relay.outbound + dispatcher::forwarding(relay.dispatcher)
        + relay.typed + reader::held(relay.reader)
}

/// The inbound bytes that are under way inside the relay, oldest first.
pub open spec fn inbound_under_way(relay: Relay) -> Seq<u8> {
    dispatcher::printing(relay.dispatcher) + relay.inbound + network::held(relay.network)
}

/// What holds of the relay at every moment.
pub open spec fn sound(relay: Relay) -> bool {
    &&& relay.inbound.len() <= relay.capacity
    &&& relay.stdout + inbound_under_way(relay) == relay.arrived
    &&& relay.sent.is_prefix_of(relay.stdin)
    &&& !(relay.network.awaiting is Stop) ==> relay.sent + outbound_under_way(relay)
        == relay.stdin
    &&& (relay.reader.awaiting is Read || relay.reader.awaiting == reader::Request::Stop(
        Halt::EndOfInput,
    )) ==> relay.reader.chunk.len() == 0
    &&& relay.reader.awaiting is Stop && !(relay.dispatcher is Stop) ==> relay.reader.awaiting
        == reader::Request::Stop(Halt::EndOfInput)
    &&& relay.network.awaiting is Stop && !(relay.dispatcher is Stop) ==> relay.network.awaiting
        == network::Request::Stop(Halt::Fatal)
}

proof fn reader_keeps_sound(relay: Relay, outside: reader::Reply)
    requires
        sound(relay),
    ensures
        sound(reader_moves(relay, outside)),
{
    let after = reader_moves(relay, outside);
    reader::step_keeps_bytes(relay.reader, outside);
    reader::step_keeps_bytes(relay.reader, reader::Reply::Pushed(true));
    reader::step_keeps_bytes(relay.reader, reader::Reply::Pushed(false));
    let front = network::outgoing(relay.network) + relay.outbound + dispatcher::forwarding(
        relay.dispatcher,
    );
    match relay.reader.awaiting {
        reader::Request::Read(_) => {
            assert(reader::pushed(relay.reader, outside) =~= Seq::<u8>::empty());
            assert(reader::held(after.reader) =~= reader::held(relay.reader) + reader::read(
                relay.reader,
                outside,
            ));
            if !(relay.network.awaiting is Stop) {
                assert(after.sent + outbound_under_way(after) =~= (relay.sent + outbound_under_way(
                    relay,
                )) + reader::read(relay.reader, outside));
            }
        },
        reader::Request::Push(byte) => {
            if relay.dispatcher is Stop {
                assert(reader::held(after.reader) =~= reader::held(relay.reader));
            } else {
                assert(seq![byte] + reader::held(after.reader) =~= reader::held(relay.reader));
                assert(relay.typed.push(byte) + reader::held(after.reader) =~= relay.typed
                    + reader::held(relay.reader));
                assert(outbound_under_way(after) =~= front + (relay.typed.push(byte) + reader::held(
                    after.reader,
                )));
                assert(outbound_under_way(relay) =~= front + (relay.typed + reader::held(
                    relay.reader,
                )));
            }
        },
        reader::Request::Stop(_) => {},
    }
}

proof fn dispatcher_keeps_sound(relay: Relay)
    requires
        sound(relay),
    ensures
        sound(dispatcher_moves(relay)),
{
    let after = dispatcher_moves(relay);
    let back = reader::held(relay.reader);
    let out = network::outgoing(relay.network);
    let deep = network::held(relay.network);
    match relay.dispatcher {
        dispatcher::Request::TakeTyped => {
            assert(dispatcher::forwarding(after.dispatcher) + after.typed =~= relay.typed);
            assert(outbound_under_way(after) =~= out + relay.outbound + (dispatcher::forwarding(
                after.dispatcher,
            ) + after.typed) + back);
            assert(outbound_under_way(relay) =~= out + relay.outbound + relay.typed + back);
            assert(outbound_under_way(after) == outbound_under_way(relay));
            assert(inbound_under_way(after) =~= inbound_under_way(relay));
        },
        dispatcher::Request::Forward(byte) => {
            if !(relay.network.awaiting is Stop) {
                assert(outbound_under_way(after) =~= out + (relay.outbound + seq![byte])
                    + relay.typed + back);
                assert(outbound_under_way(relay) =~= out + relay.outbound + seq![byte]
                    + relay.typed + back);
                assert(outbound_under_way(after) =~= outbound_under_way(relay));
            }
            assert(inbound_under_way(after) =~= inbound_under_way(relay));
        },
        dispatcher::Request::TakeInbound => {
            assert(dispatcher::printing(after.dispatcher) + after.inbound =~= relay.inbound);
            assert(inbound_under_way(after) =~= (dispatcher::printing(after.dispatcher)
                + after.inbound) + deep);
            assert(inbound_under_way(relay) =~= relay.inbound + deep);
            assert(outbound_under_way(after) =~= outbound_under_way(relay));
        },
        dispatcher::Request::Print(byte) => {
            assert(after.stdout + inbound_under_way(after) =~= relay.stdout + (seq![byte]
                + relay.inbound + deep));
            assert(inbound_under_way(relay) =~= seq![byte] + relay.inbound + deep);
            assert(outbound_under_way(after) =~= outbound_under_way(relay));
        },
        dispatcher::Request::Stop(_) => {},
    }
}

proof fn network_keeps_sound(relay: Relay, outside: network::Reply)
    requires
        sound(relay),
    ensures
        sound(network_moves(relay, outside)),
{
    let after = network_moves(relay, outside);
    let rest = dispatcher::forwarding(relay.dispatcher) + relay.typed + reader::held(relay.reader);
    let print = dispatcher::printing(relay.dispatcher);
    match relay.network.awaiting {
        network::Request::Take => {
            assert(network::outgoing(after.network) + after.outbound =~= relay.outbound);
            assert(outbound_under_way(after) =~= (network::outgoing(after.network)
                + after.outbound) + rest);
            assert(outbound_under_way(relay) =~= relay.outbound + rest);
            assert(inbound_under_way(after) =~= inbound_under_way(relay));
            if after.network.awaiting is Stop {
                assert(relay.sent.is_prefix_of(relay.sent + outbound_under_way(relay)));
            }
        },
        network::Request::Offer(byte) => {
            let reply = network::Reply::Offered(offer(relay));
            network::step_keeps_inbound_bytes(relay.network, reply);
            assert(network::absorbed(relay.network, reply) =~= Seq::<u8>::empty());
            if offer(relay) is Sent {
                assert(seq![byte] + network::held(after.network) =~= network::held(relay.network));
                assert(inbound_under_way(after) =~= print + relay.inbound + (seq![byte]
                    + network::held(after.network)));
            } else {
                assert(network::held(after.network) =~= network::held(relay.network));
            }
            assert(network::outgoing(after.network) =~= network::outgoing(relay.network));
            assert(outbound_under_way(after) =~= outbound_under_way(relay));
            if after.network.awaiting is Stop {
                assert(relay.sent.is_prefix_of(relay.sent + outbound_under_way(relay)));
            }
        },
        network::Request::Stop(_) => {},
        _ => {
            network::step_keeps_inbound_bytes(relay.network, outside);
            assert(network::delivered(relay.network, outside) =~= Seq::<u8>::empty());
            assert(network::held(after.network) =~= network::held(relay.network)
                + network::absorbed(relay.network, outside));
            assert(after.stdout + inbound_under_way(after) =~= (relay.stdout + inbound_under_way(
                relay,
            )) + network::absorbed(relay.network, outside));
            let wrote = network::written(relay.network, outside);
            assert(wrote + network::outgoing(after.network) =~= network::outgoing(relay.network)
                || after.network.awaiting is Stop);
            assert(relay.sent + outbound_under_way(relay) =~= relay.sent + network::outgoing(
                relay.network,
            ) + (relay.outbound + rest));
            assert(wrote.is_prefix_of(network::outgoing(relay.network)));
            assert((relay.sent + wrote).is_prefix_of(relay.stdin));
            if !(after.network.awaiting is Stop) {
                assert(after.sent + outbound_under_way(after) =~= relay.sent + (wrote
                    + network::outgoing(after.network)) + (relay.outbound + rest));
            }
        },
    }
}

/// A sound relay is sound after any move of any thread.
pub proof fn step_keeps_sound(relay: Relay, m: Move)
    requires
        sound(relay),
    ensures
        sound(step(relay, m)),
{
    match m {
        Move::Reader(outside) => reader_keeps_sound(relay, outside),
        Move::Dispatcher => dispatcher_keeps_sound(relay),
        Move::Network(outside) => network_keeps_sound(relay, outside),
    }
}

/// Every state that the relay reaches from its start is sound, however the
/// threads interleave and whatever the outside gives them.
pub proof fn reachable_is_sound(capacity: nat, buffer_len: usize, moves: Seq<Move>)
    ensures
        sound(run(start(capacity, buffer_len), moves)),
    decreases moves.len(),
{
    let first = start(capacity, buffer_len);
    if moves.len() == 0 {
        assert(first.stdout + inbound_under_way(first) =~= first.arrived);
        assert(first.sent + outbound_under_way(first) =~= first.stdin);
    } else {
        reachable_is_sound(capacity, buffer_len, moves.drop_last());
        step_keeps_sound(run(first, moves.drop_last()), moves.last());
    }
}

/// The outbound stream keeps its bytes and their order.  At every moment the
/// bytes written to the socket are the first of the bytes read from standard
/// input, in the same order; and as long as the network thread runs, what was
/// written and what is under way inside the relay are together exactly what
/// was read.
pub proof fn outbound_order_is_kept(capacity: nat, buffer_len: usize, moves: Seq<Move>)
    ensures
        ({
            let relay = run(start(capacity, buffer_len), moves);
            &&& relay.sent.is_prefix_of(relay.stdin)
            &&& !(relay.network.awaiting is Stop) ==> relay.sent + outbound_under_way(relay)
                == relay.stdin
        }),
{
    reachable_is_sound(capacity, buffer_len, moves);
}

/// The inbound stream keeps its bytes and their order, however the arriving
/// bytes are cut into reads, whatever the capacity of the bounded channel and
/// however often it is full.  At every moment the bytes written to standard
/// output and the bytes under way inside the relay are together exactly the
/// bytes read from the socket; so what was written is the first of what
/// arrived, and no byte is lost, invented, repeated or reordered.  The
/// bounded channel never holds more than its capacity.
pub proof fn inbound_order_is_kept(capacity: nat, buffer_len: usize, moves: Seq<Move>)
    ensures
        ({
            let relay = run(start(capacity, buffer_len), moves);
            &&& relay.stdout + inbound_under_way(relay) == relay.arrived
            &&& relay.stdout.is_prefix_of(relay.arrived)
            &&& relay.inbound.len() <= capacity
            &&& relay.capacity == capacity
        }),
    decreases moves.len(),
{
    reachable_is_sound(capacity, buffer_len, moves);
    let relay = run(start(capacity, buffer_len), moves);
    assert(relay.stdout.is_prefix_of(relay.stdout + inbound_under_way(relay)));
    if moves.len() > 0 {
        inbound_order_is_kept(capacity, buffer_len, moves.drop_last());
    }
}

/// A full channel costs nothing: the network thread keeps the byte that it
/// offered in front of its overflow buffer, the channel stays as it is, and
/// the bytes under way are the same, in the same order, as before the offer.
pub proof fn full_channel_loses_nothing(relay: Relay, byte: u8)
    requires
        relay.network.awaiting == network::Request::Offer(byte),
        !(relay.dispatcher is Stop),
        relay.inbound.len() >= relay.capacity,
    ensures
        ({
            let after = network_moves(relay, network::Reply::Offered(Offered::Full));
            &&& after.inbound == relay.inbound
            &&& after.network.overflow == seq![byte] + relay.network.overflow
            &&& inbound_under_way(after) == inbound_under_way(relay)
            &&& after.stdout == relay.stdout
            &&& after.arrived == relay.arrived
        }),
{
}

/// The end of standard input ends the relay without an error, and only after
/// every byte that was read has gone on.  When the dispatcher stops on finding
/// the reader's queue disconnected, the reader has stopped at the end of input,
/// neither the reader nor its queue nor the dispatcher holds a byte, and, if the
/// network thread still runs, every byte read from standard input has been
/// written to the socket or waits with the network thread.
pub proof fn end_of_input_is_clean(capacity: nat, buffer_len: usize, moves: Seq<Move>)
    requires
        run(start(capacity, buffer_len), moves).dispatcher is TakeTyped,
        dispatcher_moves(run(start(capacity, buffer_len), moves)).dispatcher is Stop,
    ensures
        ({
            let relay = run(start(capacity, buffer_len), moves);
            let after = dispatcher_moves(relay);
            &&& relay.reader.awaiting == reader::Request::Stop(Halt::EndOfInput)
            &&& after.dispatcher == dispatcher::Request::Stop(Halt::EndOfInput)
            &&& !Halt::EndOfInput.spec_is_error()
            &&& reader::held(relay.reader).len() == 0
            &&& relay.typed.len() == 0
            &&& dispatcher::forwarding(after.dispatcher).len() == 0
            &&& !(relay.network.awaiting is Stop) ==> relay.sent + network::outgoing(relay.network)
                + relay.outbound == relay.stdin
        }),
{
    reachable_is_sound(capacity, buffer_len, moves);
    let relay = run(start(capacity, buffer_len), moves);
    assert(outbound_under_way(relay) =~= network::outgoing(relay.network) + relay.outbound);
    assert(relay.sent + outbound_under_way(relay) =~= relay.sent + network::outgoing(relay.network)
        + relay.outbound);
}

/// Once the network thread has stopped, nothing is read from or written to
/// the socket any more, whatever the other threads do; what standard output
/// gets afterwards are bytes that had arrived before.
pub proof fn stopped_network_stays_silent(relay: Relay, later: Seq<Move>)
    requires
        sound(relay),
        relay.network.awaiting is Stop,
    ensures
        sound(run(relay, later)),
        run(relay, later).network == relay.network,
        run(relay, later).arrived == relay.arrived,
        run(relay, later).sent == relay.sent,
        run(relay, later).stdout.is_prefix_of(relay.arrived),
    decreases later.len(),
{
    if later.len() > 0 {
        stopped_network_stays_silent(relay, later.drop_last());
        step_keeps_sound(run(relay, later.drop_last()), later.last());
    }
    let end = run(relay, later);
    assert(end.stdout.is_prefix_of(end.stdout + inbound_under_way(end)));
}

/// A socket that fails or is closed by the peer ends the relay.  The failure
/// stops the network thread as a fatal error, with the streams as they were;
/// from then on no byte is taken as arrived and none is written to the socket;
/// and once the dispatcher has emptied the bounded channel, it finds it
/// disconnected and stops.
pub proof fn socket_failure_ends_relay(
    relay: Relay,
    failure: network::Reply,
    later: Seq<Move>,
)
    requires
        sound(relay),
        relay.network.awaiting is Write || relay.network.awaiting is Poll
            || relay.network.awaiting is Drain,
        match (relay.network.awaiting, failure) {
            (network::Request::Write(_), network::Reply::Wrote(Err(_))) => true,
            (network::Request::Poll, network::Reply::Polled(Err(_))) => true,
            (network::Request::Drain, network::Reply::Drained(Err(_))) => true,
            _ => false,
        },
    ensures
        ({
            let failed = network_moves(relay, failure);
            let end = run(failed, later);
            &&& failed.network.awaiting == network::Request::Stop(Halt::Fatal)
            &&& Halt::Fatal.spec_is_error()
            &&& failed.arrived == relay.arrived
            &&& failed.sent == relay.sent
            &&& failed.stdout == relay.stdout
            &&& end.network == failed.network
            &&& end.arrived == relay.arrived
            &&& end.sent == relay.sent
            &&& end.stdout.is_prefix_of(relay.arrived)
            &&& end.dispatcher is TakeInbound && end.inbound.len() == 0 ==> dispatcher_moves(
                end,
            ).dispatcher == dispatcher::Request::Stop(Halt::Disconnected)
        }),
{
    let failed = network_moves(relay, failure);
    network_keeps_sound(relay, failure);
    assert(failed.arrived =~= relay.arrived);
    assert(failed.sent =~= relay.sent);
    stopped_network_stays_silent(failed, later);
}

/// The dispatcher stops for one of two reasons, and its own reason tells
/// which.  It stops at the end of input only when the reader has stopped
/// there; it stops on a disconnect only when the network thread has stopped on
/// a fatal error of the socket, and if it was looking at the bounded channel,
/// it has by then written every byte that ever went into the channel.
pub proof fn dispatcher_stops_for_a_reason(capacity: nat, buffer_len: usize, moves: Seq<Move>)
    requires
        !(run(start(capacity, buffer_len), moves).dispatcher is Stop),
        dispatcher_moves(run(start(capacity, buffer_len), moves)).dispatcher is Stop,
    ensures
        ({
            let relay = run(start(capacity, buffer_len), moves);
            let after = dispatcher_moves(relay);
            &&& after.dispatcher == dispatcher::Request::Stop(Halt::EndOfInput) ==> {
                &&& relay.dispatcher is TakeTyped
                &&& relay.reader.awaiting == reader::Request::Stop(Halt::EndOfInput)
            }
            &&& after.dispatcher != dispatcher::Request::Stop(Halt::EndOfInput) ==> {
                &&& after.dispatcher == dispatcher::Request::Stop(Halt::Disconnected)
                &&& relay.network.awaiting == network::Request::Stop(Halt::Fatal)
                &&& relay.dispatcher is TakeInbound ==> after.stdout + network::held(relay.network)
                    == after.arrived
            }
        }),
{
    reachable_is_sound(capacity, buffer_len, moves);
    let relay = run(start(capacity, buffer_len), moves);
    if relay.dispatcher is TakeInbound {
        assert(inbound_under_way(relay) =~= network::held(relay.network));
    }
}

} // verus!
