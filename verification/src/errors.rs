//! Failures that end the program, their exit codes and their diagnostics.
use vstd::prelude::*;

verus! {

/// Exit code for a wrong argument count or a port that is no number.
pub const USAGE_ERROR: i32 = 1;

/// Exit code for a host that could not be resolved.
pub const UNRESOLVED_HOST_ERROR: i32 = 2;

/// Exit code for a connection that could not be made or kept.
pub const CONNECTION_ERROR: i32 = 3;

/// How the program is invoked.
pub const USAGE: &'static str = "wire [host] [port]";

/// A condition on which the program gives up.
#[derive(Debug, PartialEq, Eq)]
pub enum Failure {
    /// The command line was not `<host> <port>`.
    Usage,
    /// No address was found for the host that is named.
    UnresolvedHost(String),
    /// The connection could not be established.
    ConnectionRefused,
    /// The connection was closed or failed while in use.
    ConnectionClosed,
}

impl Failure {
    /// The exit code that stands for this failure.
    pub open spec fn spec_exit_code(&self) -> i32 {
        match self {
            Failure::Usage => USAGE_ERROR,
            Failure::UnresolvedHost(_) => UNRESOLVED_HOST_ERROR,
            Failure::ConnectionRefused => CONNECTION_ERROR,
            Failure::ConnectionClosed => CONNECTION_ERROR,
        }
    }

    /// The one line that is printed before the program exits.
    pub open spec fn spec_diagnostic(&self) -> Seq<char> {
        match self {
            Failure::Usage => "Usage:\t"@ + USAGE@,
            Failure::UnresolvedHost(host) => "Could not resolve host "@ + host@,
            Failure::ConnectionRefused => "Could not establish connection"@,
            Failure::ConnectionClosed => "Connection was closed"@,
        }
    }

    /// The exit code that stands for this failure.
    #[verifier::when_used_as_spec(spec_exit_code)]
    pub fn exit_code(&self) -> (code: i32)
        ensures
            code == self.spec_exit_code(),
            1 <= code <= 3,
    {
        match self {
            Failure::Usage => USAGE_ERROR,
            Failure::UnresolvedHost(_) => UNRESOLVED_HOST_ERROR,
            Failure::ConnectionRefused => CONNECTION_ERROR,
            Failure::ConnectionClosed => CONNECTION_ERROR,
        }
    }

    /// The one line that is printed before the program exits.
    pub fn diagnostic(&self) -> (line: String)
        ensures
            line@ == self.spec_diagnostic(),
    {
        match self {
            Failure::Usage => String::from_str("Usage:\t").concat(USAGE),
            Failure::UnresolvedHost(host) => String::from_str("Could not resolve host ").concat(
                host.as_str(),
            ),
            Failure::ConnectionRefused => String::from_str("Could not establish connection"),
            Failure::ConnectionClosed => String::from_str("Connection was closed"),
        }
    }
}

/// The value of a successful result; any error becomes
/// [`Failure::ConnectionClosed`], whatever it was.
pub fn unwrap_or_closed_error<T, E>(result: Result<T, E>) -> (out: Result<T, Failure>)
    ensures
        match result {
            Ok(t) => out == Ok::<T, Failure>(t),
            Err(_) => out == Err::<T, Failure>(Failure::ConnectionClosed),
        },
{
    match result {
        Ok(t) => Ok(t),
        Err(_) => Err(Failure::ConnectionClosed),
    }
}

/// The value of a successful result; any error becomes
/// [`Failure::ConnectionRefused`], whatever it was.
pub fn unwrap_or_connection_error<T, E>(result: Result<T, E>) -> (out: Result<T, Failure>)
    ensures
        match result {
            Ok(t) => out == Ok::<T, Failure>(t),
            Err(_) => out == Err::<T, Failure>(Failure::ConnectionRefused),
        },
{
    match result {
        Ok(t) => Ok(t),
        Err(_) => Err(Failure::ConnectionRefused),
    }
}

} // verus!
