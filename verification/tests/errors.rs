use wire::errors::{
    unwrap_or_closed_error, unwrap_or_connection_error, Failure, CONNECTION_ERROR,
    UNRESOLVED_HOST_ERROR, USAGE, USAGE_ERROR,
};

#[test]
fn exit_codes_are_one_two_three() {
    assert_eq!(USAGE_ERROR, 1);
    assert_eq!(UNRESOLVED_HOST_ERROR, 2);
    assert_eq!(CONNECTION_ERROR, 3);
    assert_eq!(Failure::Usage.exit_code(), 1);
    assert_eq!(Failure::UnresolvedHost(String::from("nowhere")).exit_code(), 2);
    assert_eq!(Failure::ConnectionRefused.exit_code(), 3);
    assert_eq!(Failure::ConnectionClosed.exit_code(), 3);
}

#[test]
fn diagnostics_are_one_line_each() {
    assert_eq!(USAGE, "wire [host] [port]");
    assert_eq!(Failure::Usage.diagnostic(), "Usage:\twire [host] [port]");
    assert_eq!(
        Failure::UnresolvedHost(String::from("nowhere.invalid")).diagnostic(),
        "Could not resolve host nowhere.invalid"
    );
    assert_eq!(Failure::ConnectionRefused.diagnostic(), "Could not establish connection");
    assert_eq!(Failure::ConnectionClosed.diagnostic(), "Connection was closed");
    for failure in [
        Failure::Usage,
        Failure::UnresolvedHost(String::from("h")),
        Failure::ConnectionRefused,
        Failure::ConnectionClosed,
    ] {
        assert!(!failure.diagnostic().contains('\n'));
    }
}

#[test]
fn unwrap_or_closed_error_keeps_the_value() {
    let ok: Result<u8, &str> = Ok(7);
    assert_eq!(unwrap_or_closed_error(ok), Ok(7));
    let text: Result<String, ()> = Ok(String::from("kept"));
    assert_eq!(unwrap_or_closed_error(text), Ok(String::from("kept")));
}

#[test]
fn unwrap_or_closed_error_maps_any_error() {
    let refused: Result<u8, &str> = Err("broken pipe");
    assert_eq!(unwrap_or_closed_error(refused), Err(Failure::ConnectionClosed));
    let unit: Result<u8, ()> = Err(());
    assert_eq!(unwrap_or_closed_error(unit), Err(Failure::ConnectionClosed));
}

#[test]
fn unwrap_or_connection_error_keeps_the_value() {
    let ok: Result<Vec<u8>, i32> = Ok(vec![1, 2, 3]);
    assert_eq!(unwrap_or_connection_error(ok), Ok(vec![1, 2, 3]));
}

#[test]
fn unwrap_or_connection_error_maps_any_error() {
    let refused: Result<u8, i32> = Err(111);
    assert_eq!(unwrap_or_connection_error(refused), Err(Failure::ConnectionRefused));
}
