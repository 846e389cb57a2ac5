//! The acknowledgement that a subscription has ended.

use vstd::prelude::*;
use crate::error::{Error, ErrorView, Field};
use crate::roles::Roles;
use crate::value::{Json, JsonView};
use super::helpers::{
    check_end, check_id, check_unsigned, deser_end, deser_u64_element, unsigned, unsigned_at,
    validate_id,
};
use super::{MessageDirection, WampMessage};

verus! {

/// The acknowledgement that a subscription has ended.
///
/// On the wire: `[35, request_id]`.
#[derive(Clone, Copy, Debug, PartialEq, Eq, Structural)]
pub struct Unsubscribed {
    pub request_id: u64,
}

impl View for Unsubscribed {
    type V = Unsubscribed;

    open spec fn view(&self) -> Unsubscribed {
        *self
    }
}

impl Unsubscribed {
    /// The tag that leads the message on the wire.
    pub const ID: u64 = 35;
}

impl WampMessage for Unsubscribed {
    const ID: u64 = Unsubscribed::ID;

    open spec fn spec_direction(role: Roles) -> MessageDirection {
        match role {
            Roles::Callee => MessageDirection { receives: false, sends: false },
            Roles::Caller => MessageDirection { receives: false, sends: false },
            Roles::Publisher => MessageDirection { receives: false, sends: false },
            Roles::Subscriber => MessageDirection { receives: true, sends: false },
            Roles::Dealer => MessageDirection { receives: false, sends: false },
            Roles::Broker => MessageDirection { receives: false, sends: true },
        }
    }

    fn direction(role: Roles) -> (d: MessageDirection) {
        match role {
            Roles::Callee => MessageDirection { receives: false, sends: false },
            Roles::Caller => MessageDirection { receives: false, sends: false },
            Roles::Publisher => MessageDirection { receives: false, sends: false },
            Roles::Subscriber => MessageDirection { receives: true, sends: false },
            Roles::Dealer => MessageDirection { receives: false, sends: false },
            Roles::Broker => MessageDirection { receives: false, sends: true },
        }
    }

    open spec fn spec_encode(message: Unsubscribed) -> Result<Seq<JsonView>, ErrorView> {
        Ok(seq![unsigned(Self::ID), unsigned(message.request_id)])
    }

    open spec fn spec_decode(components: Seq<JsonView>) -> Result<Unsubscribed, ErrorView> {
        if let Some(e) = check_id(components, Self::ID) {
            Err(e)
        } else if let Some(e) = check_unsigned(components, 1, Field::RequestId) {
            Err(e)
        } else if let Some(e) = check_end(components, 2) {
            Err(e)
        } else {
            Ok(Unsubscribed { request_id: unsigned_at(components, 1) })
        }
    }

    open spec fn well_formed(message: Unsubscribed) -> bool {
        true
    }

    open spec fn canonical(message: Unsubscribed) -> Unsubscribed {
        message
    }

    proof fn lemma_round_trip(message: Unsubscribed) {
    }

    proof fn lemma_tag_mismatch(components: Seq<JsonView>) {
    }

    proof fn lemma_leading_tag(message: Unsubscribed) {
    }

    proof fn lemma_writable(message: Unsubscribed) {
    }

    fn encode(&self) -> (r: Result<Vec<Json>, Error>) {
        let mut out: Vec<Json> = Vec::new();
        out.push(Json::unsigned(Self::ID));
        out.push(Json::unsigned(self.request_id));
        assert(out.deep_view() =~= seq![unsigned(Self::ID), unsigned(self.request_id)]);
        Ok(out)
    }

    fn decode(components: &Vec<Json>) -> (r: Result<Self, Error>) {
        validate_id(components, Self::ID)?;
        let request_id = deser_u64_element(components, 1, Field::RequestId)?;
        deser_end(components, 2)?;
        Ok(Unsubscribed { request_id })
    }
}

} // verus!
