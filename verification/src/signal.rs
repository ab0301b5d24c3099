//! What the channels between the relay's threads report, and why a thread stops.
use vstd::prelude::*;

verus! {

/// The capacity of the bounded channel that leads from the network thread to
/// the dispatcher, and the length of the buffer that standard input is read
/// into.
pub const CHANNEL_CAPACITY: usize = 94876;

/// What a non-blocking look at the receiving end of a queue found.
#[derive(Clone, Copy, Debug, PartialEq, Eq, Structural)]
pub enum Taken {
    /// The oldest byte of the queue, which has left it.
    Byte(u8),
    /// Nothing is waiting right now.
    Empty,
    /// The queue is empty and its sending end is gone.
    Disconnected,
}

/// What a non-blocking send on a channel came to.
#[derive(Clone, Copy, Debug, PartialEq, Eq, Structural)]
pub enum Offered {
    /// The channel took the byte.
    Sent,
    /// The channel is at its capacity and did not take the byte.
    Full,
    /// The receiving end is gone.
    Disconnected,
}

/// Why a thread of the relay stops.
#[derive(Clone, Copy, Debug, PartialEq, Eq, Structural)]
pub enum Halt {
    /// Standard input reached its end.
    EndOfInput,
    /// The thread at the far end of a channel has stopped.
    Disconnected,
    /// The socket failed, or the peer closed it.
    Fatal,
}

impl Halt {
    /// Whether the stop is an error that is reported before the program exits.
    /// Only a failure of the socket is; the end of input and a channel whose
    /// far end is gone are ordinary ends.
    pub open spec fn spec_is_error(&self) -> bool {
        *self == Halt::Fatal
    }

    /// Whether the stop is an error that is reported before the program exits.
    #[verifier::when_used_as_spec(spec_is_error)]
    pub fn is_error(&self) -> (error: bool)
        ensures
            error == self.spec_is_error(),
    {
        match self {
            Halt::Fatal => true,
            _ => false,
        }
    }
}

} // verus!
