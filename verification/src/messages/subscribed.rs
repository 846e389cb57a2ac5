//! The acknowledgement of a subscription.

use vstd::prelude::*;
use crate::error::{Error, ErrorView, Field};
use crate::roles::Roles;
use crate::value::{Json, JsonView};
use super::helpers::{
    check_end, check_id, check_unsigned, deser_end, deser_u64_element, unsigned, unsigned_at,
    validate_id,
};
use super::{MessageDirection, WampMessage};

verus! {

/// The acknowledgement of a subscription.
///
/// On the wire: `[33, request_id, subscription]`.
#[derive(Clone, Copy, Debug, PartialEq, Eq, Structural)]
pub struct Subscribed {
    pub request_id: u64,
    pub subscription: u64,
}

impl View for Subscribed {
    type V = Subscribed;

    open spec fn view(&self) -> Subscribed {
        *self
    }
}

impl Subscribed {
    /// The tag that leads the message on the wire.
    pub const ID: u64 = 33;
}

impl WampMessage for Subscribed {
    const ID: u64 = Subscribed::ID;

    open spec fn spec_direction(role: Roles) -> MessageDirection {
        match role {
            Roles::Callee => MessageDirection { receives: false, sends: false },
            Roles::Caller => MessageDirection { receives: false, sends: false },
            Roles::Publisher => MessageDirection { receives: false, sends: false },
            Roles::Subscriber => MessageDirection { receives: true, sends: false },
            Roles::Dealer => MessageDirection { receives: false, sends: false },
            Roles::Broker => MessageDirection { receives: false, sends: true },
        }
    }

    fn direction(role: Roles) -> (d: MessageDirection) {
        match role {
            Roles::Callee => MessageDirection { receives: false, sends: false },
            Roles::Caller => MessageDirection { receives: false, sends: false },
            Roles::Publisher => MessageDirection { receives: false, sends: false },
            Roles::Subscriber => MessageDirection { receives: true, sends: false },
            Roles::Dealer => MessageDirection { receives: false, sends: false },
            Roles::Broker => MessageDirection { receives: false, sends: true },
        }
    }

    open spec fn spec_encode(message: Subscribed) -> Result<Seq<JsonView>, ErrorView> {
        Ok(seq![
            unsigned(Self::ID),
            unsigned(message.request_id),
            unsigned(message.subscription),
        ])
    }

    open spec fn spec_decode(components: Seq<JsonView>) -> Result<Subscribed, ErrorView> {
        if let Some(e) = check_id(components, Self::ID) {
            Err(e)
        } else if let Some(e) = check_unsigned(components, 1, Field::RequestId) {
            Err(e)
        } else if let Some(e) = check_unsigned(components, 2, Field::Subscription) {
            Err(e)
        } else if let Some(e) = check_end(components, 3) {
            Err(e)
        } else {
            Ok(
                Subscribed {
                    request_id: unsigned_at(components, 1),
                    subscription: unsigned_at(components, 2),
                },
            )
        }
    }

    open spec fn well_formed(message: Subscribed) -> bool {
        true
    }

    open spec fn canonical(message: Subscribed) -> Subscribed {
        message
    }

    proof fn lemma_round_trip(message: Subscribed) {
    }

    proof fn lemma_tag_mismatch(components: Seq<JsonView>) {
    }

    proof fn lemma_leading_tag(message: Subscribed) {
    }

    proof fn lemma_writable(message: Subscribed) {
    }

    fn encode(&self) -> (r: Result<Vec<Json>, Error>) {
        let mut out: Vec<Json> = Vec::new();
        out.push(Json::unsigned(Self::ID));
        out.push(Json::unsigned(self.request_id));
        out.push(Json::unsigned(self.subscription));
        assert(out.deep_view() =~= seq![
            unsigned(Self::ID),
            unsigned(self.request_id),
            unsigned(self.subscription),
        ]);
        Ok(out)
    }

    fn decode(components: &Vec<Json>) -> (r: Result<Self, Error>) {
        validate_id(components, Self::ID)?;
        let request_id = deser_u64_element(components, 1, Field::RequestId)?;
        let subscription = deser_u64_element(components, 2, Field::Subscription)?;
        deser_end(components, 3)?;
        Ok(Subscribed { request_id, subscription })
    }
}

} // verus!
