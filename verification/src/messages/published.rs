//! The acknowledgement of a publication.

use vstd::prelude::*;
use crate::error::{Error, ErrorView, Field};
use crate::roles::Roles;
use crate::value::{Json, JsonView};
use super::helpers::{
    check_end, check_id, check_unsigned, deser_end, deser_u64_element, unsigned, unsigned_at,
    validate_id,
};
use super::{MessageDirection, WampMessage};

verus! {

/// The acknowledgement of a publication.
///
/// On the wire: `[17, request_id, publication]`.
#[derive(Clone, Copy, Debug, PartialEq, Eq, Structural)]
pub struct Published {
    pub request_id: u64,
    pub publication: u64,
}

impl View for Published {
    type V = Published;

    open spec fn view(&self) -> Published {
        *self
    }
}

impl Published {
    /// The tag that leads the message on the wire.
    pub const ID: u64 = 17;
}

impl WampMessage for Published {
    const ID: u64 = Published::ID;

    open spec fn spec_direction(role: Roles) -> MessageDirection {
        match role {
            Roles::Callee => MessageDirection { receives: true, sends: false },
            Roles::Caller => MessageDirection { receives: false, sends: false },
            Roles::Publisher => MessageDirection { receives: true, sends: false },
            Roles::Subscriber => MessageDirection { receives: false, sends: false },
            Roles::Dealer => MessageDirection { receives: false, sends: false },
            Roles::Broker => MessageDirection { receives: false, sends: true },
        }
    }

    fn direction(role: Roles) -> (d: MessageDirection) {
        match role {
            Roles::Callee => MessageDirection { receives: true, sends: false },
            Roles::Caller => MessageDirection { receives: false, sends: false },
            Roles::Publisher => MessageDirection { receives: true, sends: false },
            Roles::Subscriber => MessageDirection { receives: false, sends: false },
            Roles::Dealer => MessageDirection { receives: false, sends: false },
            Roles::Broker => MessageDirection { receives: false, sends: true },
        }
    }

    open spec fn spec_encode(message: Published) -> Result<Seq<JsonView>, ErrorView> {
        Ok(seq![
            unsigned(Self::ID),
            unsigned(message.request_id),
            unsigned(message.publication),
        ])
    }

    open spec fn spec_decode(components: Seq<JsonView>) -> Result<Published, ErrorView> {
        if let Some(e) = check_id(components, Self::ID) {
            Err(e)
        } else if let Some(e) = check_unsigned(components, 1, Field::RequestId) {
            Err(e)
        } else if let Some(e) = check_unsigned(components, 2, Field::Publication) {
            Err(e)
        } else if let Some(e) = check_end(components, 3) {
            Err(e)
        } else {
            Ok(
                Published {
                    request_id: unsigned_at(components, 1),
                    publication: unsigned_at(components, 2),
                },
            )
        }
    }

    open spec fn well_formed(message: Published) -> bool {
        true
    }

    open spec fn canonical(message: Published) -> Published {
        message
    }

    proof fn lemma_round_trip(message: Published) {
    }

    proof fn lemma_tag_mismatch(components: Seq<JsonView>) {
    }

    proof fn lemma_leading_tag(message: Published) {
    }

    proof fn lemma_writable(message: Published) {
    }

    fn encode(&self) -> (r: Result<Vec<Json>, Error>) {
        let mut out: Vec<Json> = Vec::new();
        out.push(Json::unsigned(Self::ID));
        out.push(Json::unsigned(self.request_id));
        out.push(Json::unsigned(self.publication));
        assert(out.deep_view() =~= seq![
            unsigned(Self::ID),
            unsigned(self.request_id),
            unsigned(self.publication),
        ]);
        Ok(out)
    }

    fn decode(components: &Vec<Json>) -> (r: Result<Self, Error>) {
        validate_id(components, Self::ID)?;
        let request_id = deser_u64_element(components, 1, Field::RequestId)?;
        let publication = deser_u64_element(components, 2, Field::Publication)?;
        deser_end(components, 3)?;
        Ok(Published { request_id, publication })
    }
}

} // verus!
