//! The interface a user type offers so a session can carry it.

use vstd::prelude::*;

verus! {

/// A value that can cross a session as one logical message.
pub trait Message {
    /// The value's bytes, borrowed in place.
    fn as_bytes(&self) -> &[u8];

    /// The value serialized for the wire.
    fn encode(&self) -> &[u8];

    /// A value read back from the wire.
    fn decode() -> Self where Self: core::marker::Sized;
}

} // verus!
