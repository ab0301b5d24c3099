use wire::dispatcher::{Dispatcher, Reply, Request};
use wire::signal::{Halt, Taken};

#[test]
fn dispatcher_starts_with_the_typed_queue() {
    let engine = Dispatcher::new();
    assert_eq!(engine.request(), Request::TakeTyped);
}

#[test]
fn typed_byte_is_forwarded_at_once() {
    let mut engine = Dispatcher::new();
    assert_eq!(engine.step(Reply::Taken(Taken::Byte(b'h'))), Request::Forward(b'h'));
    assert_eq!(engine.step(Reply::Forwarded(true)), Request::TakeInbound);
}

#[test]
fn inbound_byte_is_printed_at_once() {
    let mut engine = Dispatcher::new();
    assert_eq!(engine.step(Reply::Taken(Taken::Empty)), Request::TakeInbound);
    assert_eq!(engine.step(Reply::Taken(Taken::Byte(0x41))), Request::Print(0x41));
    assert_eq!(engine.step(Reply::Printed), Request::TakeTyped);
}

#[test]
fn empty_queues_are_polled_in_turn() {
    let mut engine = Dispatcher::new();
    for _ in 0..5 {
        assert_eq!(engine.step(Reply::Taken(Taken::Empty)), Request::TakeInbound);
        assert_eq!(engine.step(Reply::Taken(Taken::Empty)), Request::TakeTyped);
    }
}

#[test]
fn disconnect_of_either_channel_stops_the_program_without_error() {
    let mut engine = Dispatcher::new();
    assert_eq!(engine.step(Reply::Taken(Taken::Disconnected)), Request::Stop(Halt::EndOfInput));
    assert!(!Halt::EndOfInput.is_error());
    let mut engine = Dispatcher::new();
    engine.step(Reply::Taken(Taken::Empty));
    assert_eq!(engine.step(Reply::Taken(Taken::Disconnected)), Request::Stop(Halt::Disconnected));
    let mut engine = Dispatcher::new();
    engine.step(Reply::Taken(Taken::Byte(1)));
    assert_eq!(engine.step(Reply::Forwarded(false)), Request::Stop(Halt::Disconnected));
    assert!(!Halt::Disconnected.is_error());
}

#[test]
fn stopped_dispatcher_stays_stopped() {
    let mut engine = Dispatcher { awaiting: Request::Stop(Halt::Disconnected) };
    for reply in [
        Reply::Taken(Taken::Byte(1)),
        Reply::Taken(Taken::Empty),
        Reply::Taken(Taken::Disconnected),
        Reply::Forwarded(true),
        Reply::Forwarded(false),
        Reply::Printed,
    ] {
        assert_eq!(engine.step(reply), Request::Stop(Halt::Disconnected));
    }
}

#[test]
fn dispatcher_ignores_a_reply_to_another_request() {
    let mut engine = Dispatcher::new();
    assert_eq!(engine.step(Reply::Printed), Request::TakeTyped);
    assert_eq!(engine.step(Reply::Forwarded(true)), Request::TakeTyped);
    engine.step(Reply::Taken(Taken::Byte(7)));
    assert_eq!(engine.step(Reply::Taken(Taken::Byte(8))), Request::Forward(7));
    assert_eq!(engine.step(Reply::Printed), Request::Forward(7));
    let mut engine = Dispatcher { awaiting: Request::Print(9) };
    assert_eq!(engine.step(Reply::Forwarded(false)), Request::Print(9));
    assert_eq!(engine.step(Reply::Taken(Taken::Disconnected)), Request::Print(9));
}
