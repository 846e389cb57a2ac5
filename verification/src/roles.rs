//! The six roles a peer can play.

use vstd::prelude::*;

verus! {

/// A role of the protocol.
#[derive(Clone, Copy, Debug, PartialEq, Eq, Structural)]
pub enum Roles {
    Callee,
    Caller,
    Publisher,
    Subscriber,
    Dealer,
    Broker,
}

} // verus!
