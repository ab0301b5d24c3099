//! Progress of the relay: once the outside goes quiet, every byte under way
//! is delivered.
//!
//! [`crate::relay`] shows that no byte is ever lost or reordered.  This module
//! shows that, with a bounded channel of room for at least one byte and three
//! threads that each get their turn, the bytes also arrive.
use crate::dispatcher;
use crate::network;
use crate::reader;
use crate::relay::{
    dispatcher_moves, inbound_under_way, network_moves, outbound_under_way, reader_moves, sound,
    Relay,
};
use vstd::prelude::*;

verus! {

/// What a quiet socket answers to the network thread: it takes every byte it
/// is given, and it has nothing to read.  Only a drain that is already out
/// still brings its bytes, `last`.
pub open spec fn calm(relay: Relay, last: Vec<u8>) -> network::Reply {
    match relay.network.awaiting {
        network::Request::Write(_) => network::Reply::Wrote(Ok(1)),
        network::Request::Drain => network::Reply::Drained(Ok(last)),
        _ => network::Reply::Polled(Ok(false)),
    }
}

/// One turn of each thread while the outside is quiet: the reader, whose read
/// brings nothing, then the network thread, then the dispatcher.
pub open spec fn turn(relay: Relay, last: Vec<u8>) -> Relay {
    let read = reader_moves(relay, reader::Reply::Read(None));
    dispatcher_moves(network_moves(read, calm(read, last)))
}

/// The relay after so many turns.
pub open spec fn turns(relay: Relay, last: Vec<u8>, count: nat) -> Relay
    decreases count,
{
    if count == 0 {
        relay
    } else {
        turns(turn(relay, last), last, (count - 1) as nat)
    }
}

/// Whether all three threads run.
pub open spec fn running(relay: Relay) -> bool {
    &&& !(relay.reader.awaiting is Stop)
    &&& !(relay.dispatcher is Stop)
    &&& !(relay.network.awaiting is Stop)
}

/// The bytes that a drain that is out will bring.
pub open spec fn coming(relay: Relay, last: Vec<u8>) -> Seq<u8> {
    if relay.network.awaiting is Drain {
        last@
    } else {
        Seq::empty()
    }
}

spec fn reader_works(relay: Relay) -> bool {
    relay.reader.awaiting is Push
}

spec fn network_works(relay: Relay, last: Vec<u8>) -> bool {
    ||| relay.network.awaiting is Write
    ||| relay.network.awaiting is Offer
    ||| relay.outbound.len() > 0
    ||| relay.network.overflow.len() > 0
    ||| coming(relay, last).len() > 0
}

spec fn dispatcher_works(relay: Relay) -> bool {
    ||| relay.dispatcher is Forward
    ||| relay.dispatcher is Print
    ||| relay.typed.len() > 0
    ||| relay.inbound.len() > 0
}

spec fn channel_is_full(relay: Relay) -> bool {
    relay.network.awaiting is Offer && relay.inbound.len() >= relay.capacity
}

/// How many steps the network thread is away from moving a byte.
spec fn network_lag(relay: Relay, last: Vec<u8>) -> int {
    let waiting = relay.network.overflow.len() + coming(relay, last).len() > 0;
    match relay.network.awaiting {
        network::Request::Take => if relay.outbound.len() > 0 {
            1
        } else if waiting {
            2
        } else {
            0
        },
        network::Request::Poll | network::Request::Drain => if waiting {
            1
        } else if relay.outbound.len() > 0 {
            2
        } else {
            0
        },
        _ => 0,
    }
}

/// How far the dispatcher is from moving a byte, three for each step.
spec fn dispatcher_lag(relay: Relay) -> int {
    match relay.dispatcher {
        dispatcher::Request::TakeTyped => if relay.typed.len() > 0 {
            3
        } else if relay.inbound.len() > 0 {
            6
        } else {
            0
        },
        dispatcher::Request::TakeInbound => if relay.inbound.len() > 0 {
            3
        } else if relay.typed.len() > 0 {
            6
        } else {
            0
        },
        _ => 0,
    }
}

/// A measure of the work that is left.  A byte counts the more the farther it
/// is from its destination, and each thread counts by its distance from its
/// next move of a byte.
spec fn work_left(relay: Relay, last: Vec<u8>) -> int {
    3 * network::outgoing(relay.network).len() + 4 * relay.outbound.len() + 16
        * dispatcher::forwarding(relay.dispatcher).len() + 17 * relay.typed.len() + 25
        * reader::held(relay.reader).len() + 10 * dispatcher::printing(relay.dispatcher).len() + 11
        * relay.inbound.len() + 21 * network::held(relay.network).len() + 21 * coming(
        relay,
        last,
    ).len() + network_lag(relay, last) + dispatcher_lag(relay)
}

proof fn reader_turn(relay: Relay, last: Vec<u8>)
    requires
        sound(relay),
        running(relay),
    ensures
        ({
            let after = reader_moves(relay, reader::Reply::Read(None));
            &&& sound(after)
            &&& running(after)
            &&& after.capacity == relay.capacity
            &&& after.stdin == relay.stdin
            &&& after.arrived == relay.arrived
            &&& coming(after, last) == coming(relay, last)
            &&& work_left(after, last) <= work_left(relay, last) - (if reader_works(relay) {
                1int
            } else {
                0int
            })
            &&& network_works(relay, last) ==> network_works(after, last)
            &&& dispatcher_works(relay) ==> dispatcher_works(after)
        }),
{
    let after = reader_moves(relay, reader::Reply::Read(None));
    crate::relay::step_keeps_sound(relay, crate::relay::Move::Reader(reader::Reply::Read(None)));
    assert(after.stdin =~= relay.stdin);
    if relay.reader.awaiting is Push {
        reader::step_keeps_bytes(relay.reader, reader::Reply::Pushed(true));
        assert(reader::held(after.reader).len() + 1 == reader::held(relay.reader).len());
    }
}

proof fn network_turn(relay: Relay, last: Vec<u8>)
    requires
        sound(relay),
        running(relay),
        relay.capacity >= 1,
    ensures
        ({
            let after = network_moves(relay, calm(relay, last));
            &&& sound(after)
            &&& running(after)
            &&& after.capacity == relay.capacity
            &&& after.stdin == relay.stdin
            &&& after.arrived == relay.arrived + coming(relay, last)
            &&& !(after.network.awaiting is Drain)
            &&& work_left(after, last) <= work_left(relay, last) + (if channel_is_full(relay) {
                2int
            } else if network_works(relay, last) {
                -1int
            } else {
                0int
            })
            &&& channel_is_full(relay) ==> dispatcher_works(after)
            &&& dispatcher_works(relay) ==> dispatcher_works(after)
        }),
{
    let reply = calm(relay, last);
    let after = network_moves(relay, reply);
    crate::relay::step_keeps_sound(relay, crate::relay::Move::Network(reply));
    assert(after.arrived =~= relay.arrived + coming(relay, last));
    match relay.network.awaiting {
        network::Request::Offer(byte) => {
            let answer = network::Reply::Offered(crate::relay::offer(relay));
            network::step_keeps_inbound_bytes(relay.network, answer);
            assert(network::delivered(relay.network, answer).len() + network::held(
                after.network,
            ).len() == network::held(relay.network).len());
        },
        network::Request::Stop(_) => {},
        network::Request::Take => {},
        _ => {
            network::step_keeps_inbound_bytes(relay.network, reply);
            assert(network::held(after.network).len() == network::held(relay.network).len()
                + coming(relay, last).len());
        },
    }
}

proof fn dispatcher_turn(relay: Relay, last: Vec<u8>)
    requires
        sound(relay),
        running(relay),
    ensures
        ({
            let after = dispatcher_moves(relay);
            &&& sound(after)
            &&& running(after)
            &&& after.capacity == relay.capacity
            &&& after.stdin == relay.stdin
            &&& after.arrived == relay.arrived
            &&& after.network.awaiting == relay.network.awaiting
            &&& work_left(after, last) <= work_left(relay, last) - (if dispatcher_works(relay) {
                3int
            } else {
                0int
            })
        }),
{
    crate::relay::step_keeps_sound(relay, crate::relay::Move::Dispatcher);
}

proof fn turn_makes_progress(relay: Relay, last: Vec<u8>)
    requires
        sound(relay),
        running(relay),
        relay.capacity >= 1,
    ensures
        ({
            let after = turn(relay, last);
            &&& sound(after)
            &&& running(after)
            &&& after.capacity == relay.capacity
            &&& after.stdin == relay.stdin
            &&& after.arrived == relay.arrived + coming(relay, last)
            &&& coming(after, last) == Seq::<u8>::empty()
            &&& work_left(after, last) <= work_left(relay, last)
            &&& work_left(relay, last) > 0 ==> work_left(after, last) < work_left(relay, last)
        }),
{
    let read = reader_moves(relay, reader::Reply::Read(None));
    reader_turn(relay, last);
    let moved = network_moves(read, calm(read, last));
    network_turn(read, last);
    dispatcher_turn(moved, last);
}

proof fn deliver(relay: Relay, last: Vec<u8>) -> (count: nat)
    requires
        sound(relay),
        running(relay),
        relay.capacity >= 1,
    ensures
        ({
            let end = turns(relay, last, count);
            &&& end.stdin == relay.stdin
            &&& end.arrived == relay.arrived + coming(relay, last)
            &&& end.sent == end.stdin
            &&& end.stdout == end.arrived
            &&& outbound_under_way(end).len() == 0
            &&& inbound_under_way(end).len() == 0
            &&& running(end)
        }),
    decreases work_left(relay, last),
{
    if work_left(relay, last) > 0 {
        turn_makes_progress(relay, last);
        let after = turn(relay, last);
        let rest = deliver(after, last);
        assert(relay.arrived + coming(relay, last) + coming(after, last) =~= relay.arrived
            + coming(relay, last));
        (rest + 1) as nat
    } else {
        assert(coming(relay, last) =~= Seq::<u8>::empty());
        assert(outbound_under_way(relay) =~= Seq::<u8>::empty());
        assert(inbound_under_way(relay) =~= Seq::<u8>::empty());
        assert(relay.sent + outbound_under_way(relay) =~= relay.sent);
        assert(relay.stdout + inbound_under_way(relay) =~= relay.stdout);
        assert(relay.arrived + coming(relay, last) =~= relay.arrived);
        0
    }
}

/// Once standard input and the socket go quiet, the relay delivers what it
/// holds.  From any state that it can be in while its three threads run and
/// the bounded channel has room for at least one byte, a number of turns
/// brings every byte read from standard input to the socket and every byte
/// that arrived from the socket to standard output: nothing stays behind in a
/// queue, in the overflow buffer or in a thread's hands, however full the
/// channel was.  The result is that number of turns.
pub proof fn quiet_relay_delivers_everything(relay: Relay, last: Vec<u8>) -> (count: nat)
    requires
        sound(relay),
        running(relay),
        relay.capacity >= 1,
    ensures
        ({
            let end = turns(relay, last, count);
            &&& end.stdin == relay.stdin
            &&& end.arrived == relay.arrived + coming(relay, last)
            &&& end.sent == end.stdin
            &&& end.stdout == end.arrived
            &&& outbound_under_way(end).len() == 0
            &&& inbound_under_way(end).len() == 0
            &&& running(end)
        }),
{
    deliver(relay, last)
}

} // verus!
