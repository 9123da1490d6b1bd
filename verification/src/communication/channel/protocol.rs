//! Protocols and the messages they carry.

pub mod json;

/// Message types that exist in the protocols. Some of these messages can only
/// be sent over certain types of transports.
pub mod message;

use vstd::prelude::*;

verus! {

/// What can go wrong when a protocol is negotiated. Nothing can yet: the type
/// has no value.
#[derive(Debug)]
pub enum ProtocolError {
    Never(std::convert::Infallible),
}

/// A protocol: how the bytes of a transport are read as messages.
pub trait Protocol {
    fn new() -> Result<Self, ProtocolError> where Self: Sized;
}

/// Encodes messages as JSON.
pub struct JSONProtocol {}

impl Protocol for JSONProtocol {
    fn new() -> (protocol: Result<Self, ProtocolError>)
        ensures
            protocol is Ok,
    {
        Ok(Self {  })
    }
}

} // verus!
