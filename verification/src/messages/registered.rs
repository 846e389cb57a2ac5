//! The acknowledgement of a registration.

use vstd::prelude::*;
use crate::error::{Error, ErrorView, Field};
use crate::roles::Roles;
use crate::value::{Json, JsonView};
use super::helpers::{
    check_end, check_id, check_unsigned, deser_end, deser_u64_element, unsigned, unsigned_at,
    validate_id,
};
use super::{MessageDirection, WampMessage};

verus! {

/// The acknowledgement of a registration.
///
/// On the wire: `[65, request_id, registration]`.
#[derive(Clone, Copy, Debug, PartialEq, Eq, Structural)]
pub struct Registered {
    pub request_id: u64,
    pub registration: u64,
}

impl View for Registered {
    type V = Registered;

    open spec fn view(&self) -> Registered {
        *self
    }
}

impl Registered {
    /// The tag that leads the message on the wire.
    pub const ID: u64 = 65;
}

impl WampMessage for Registered {
    const ID: u64 = Registered::ID;

    open spec fn spec_direction(role: Roles) -> MessageDirection {
        match role {
            Roles::Callee => MessageDirection { receives: true, sends: false },
            Roles::Caller => MessageDirection { receives: false, sends: false },
            Roles::Publisher => MessageDirection { receives: false, sends: false },
            Roles::Subscriber => MessageDirection { receives: false, sends: false },
            Roles::Dealer => MessageDirection { receives: false, sends: true },
            Roles::Broker => MessageDirection { receives: false, sends: false },
        }
    }

    fn direction(role: Roles) -> (d: MessageDirection) {
        match role {
            Roles::Callee => MessageDirection { receives: true, sends: false },
            Roles::Caller => MessageDirection { receives: false, sends: false },
            Roles::Publisher => MessageDirection { receives: false, sends: false },
            Roles::Subscriber => MessageDirection { receives: false, sends: false },
            Roles::Dealer => MessageDirection { receives: false, sends: true },
            Roles::Broker => MessageDirection { receives: false, sends: false },
        }
    }

    open spec fn spec_encode(message: Registered) -> Result<Seq<JsonView>, ErrorView> {
        Ok(seq![
            unsigned(Self::ID),
            unsigned(message.request_id),
            unsigned(message.registration),
        ])
    }

    open spec fn spec_decode(components: Seq<JsonView>) -> Result<Registered, ErrorView> {
        if let Some(e) = check_id(components, Self::ID) {
            Err(e)
        } else if let Some(e) = check_unsigned(components, 1, Field::RequestId) {
            Err(e)
        } else if let Some(e) = check_unsigned(components, 2, Field::Registration) {
            Err(e)
        } else if let Some(e) = check_end(components, 3) {
            Err(e)
        } else {
            Ok(
                Registered {
                    request_id: unsigned_at(components, 1),
                    registration: unsigned_at(components, 2),
                },
            )
        }
    }

    open spec fn well_formed(message: Registered) -> bool {
        true
    }

    open spec fn canonical(message: Registered) -> Registered {
        message
    }

    proof fn lemma_round_trip(message: Registered) {
    }

    proof fn lemma_tag_mismatch(components: Seq<JsonView>) {
    }

    proof fn lemma_leading_tag(message: Registered) {
    }

    proof fn lemma_writable(message: Registered) {
    }

    fn encode(&self) -> (r: Result<Vec<Json>, Error>) {
        let mut out: Vec<Json> = Vec::new();
        out.push(Json::unsigned(Self::ID));
        out.push(Json::unsigned(self.request_id));
        out.push(Json::unsigned(self.registration));
        assert(out.deep_view() =~= seq![
            unsigned(Self::ID),
            unsigned(self.request_id),
            unsigned(self.registration),
        ]);
        Ok(out)
    }

    fn decode(components: &Vec<Json>) -> (r: Result<Self, Error>) {
        validate_id(components, Self::ID)?;
        let request_id = deser_u64_element(components, 1, Field::RequestId)?;
        let registration = deser_u64_element(components, 2, Field::Registration)?;
        deser_end(components, 3)?;
        Ok(Registered { request_id, registration })
    }
}

} // verus!
