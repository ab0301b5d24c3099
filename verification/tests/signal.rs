use wire::signal::{Halt, CHANNEL_CAPACITY};

#[test]
fn reference_capacity() {
    assert_eq!(CHANNEL_CAPACITY, 94876);
}

#[test]
fn only_a_fatal_stop_is_an_error() {
    assert!(Halt::Fatal.is_error());
    assert!(!Halt::EndOfInput.is_error());
    assert!(!Halt::Disconnected.is_error());
}
