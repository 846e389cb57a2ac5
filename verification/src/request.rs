//! What a client asks for when it opens the transport.

use vstd::prelude::*;

verus! {

/// The address of a router and the name of the serialization that the client
/// wishes to speak over the connection.
#[derive(Debug, PartialEq, Eq)]
pub struct WampRequest<U, P> {
    pub uri: U,
    pub protocol: P,
}

} // verus!
