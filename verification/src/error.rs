//! The errors the protocol reports to its caller.

use vstd::prelude::*;

verus! {

/// What can go wrong while moving one logical message.
///
/// An integrity mismatch is not here: it is handled inside the protocol
/// by the resend signal and stays invisible to the caller.
#[derive(Clone, Copy, Debug, PartialEq, Eq, Structural)]
pub enum ProtocolError {
    /// An operation was attempted on a session with no attached transport.
    NotConnected,
    /// The transport failed, or the stream ended before a full header or
    /// payload arrived.
    Transport,
    /// A header contradicts the segment invariants: its offset does not
    /// continue the bytes accepted so far, or its segment reaches past
    /// the declared whole-message length.
    MalformedHeader,
    /// One segment was refused more often than the retry budget allows:
    /// the link corrupts persistently.
    LinkUnreliable,
}

} // verus!
