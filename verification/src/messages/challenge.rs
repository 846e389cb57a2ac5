//! The demand of the router that the client authenticate.

use vstd::prelude::*;
use crate::error::{Error, ErrorView, Field};
use crate::roles::Roles;
use crate::value::{Json, JsonView};
use super::helpers::{
    check_end, check_id, check_object, check_string, deser_end, deser_object_element,
    deser_string_element, ser_value_is_object, string_at, unsigned, validate_id,
};
use super::{MessageDirection, WampMessage};

verus! {

/// The demand of the router that the client authenticate.
///
/// On the wire: `[4, authmethod, details]`.
#[derive(Debug, PartialEq, Eq)]
pub struct Challenge {
    pub authmethod: String,
    pub details: Json,
}

/// The mathematical model of the message [`Challenge`].
pub struct ChallengeView {
    pub authmethod: Seq<char>,
    pub details: JsonView,
}

impl View for Challenge {
    type V = ChallengeView;

    open spec fn view(&self) -> ChallengeView {
        ChallengeView {
            authmethod: self.authmethod@,
            details: self.details@,
        }
    }
}

impl Clone for Challenge {
    fn clone(&self) -> (r: Self)
        ensures
            r@ == self@,
    {
        Challenge {
            authmethod: self.authmethod.clone(),
            details: self.details.clone(),
        }
    }
}

impl Challenge {
    /// The tag that leads the message on the wire.
    pub const ID: u64 = 4;
}

impl WampMessage for Challenge {
    const ID: u64 = Challenge::ID;

    open spec fn spec_direction(role: Roles) -> MessageDirection {
        match role {
            Roles::Callee => MessageDirection { receives: true, sends: false },
            Roles::Caller => MessageDirection { receives: true, sends: false },
            Roles::Publisher => MessageDirection { receives: true, sends: false },
            Roles::Subscriber => MessageDirection { receives: true, sends: false },
            Roles::Dealer => MessageDirection { receives: false, sends: true },
            Roles::Broker => MessageDirection { receives: false, sends: true },
        }
    }

    fn direction(role: Roles) -> (d: MessageDirection) {
        match role {
            Roles::Callee => MessageDirection { receives: true, sends: false },
            Roles::Caller => MessageDirection { receives: true, sends: false },
            Roles::Publisher => MessageDirection { receives: true, sends: false },
            Roles::Subscriber => MessageDirection { receives: true, sends: false },
            Roles::Dealer => MessageDirection { receives: false, sends: true },
            Roles::Broker => MessageDirection { receives: false, sends: true },
        }
    }

    open spec fn spec_encode(message: ChallengeView) -> Result<Seq<JsonView>, ErrorView> {
        if !message.details.is_object() {
            Err(ErrorView::InvalidField(Field::Details))
        } else {
            Ok(seq![unsigned(Self::ID), JsonView::String(message.authmethod), message.details])
        }
    }

    open spec fn spec_decode(components: Seq<JsonView>) -> Result<ChallengeView, ErrorView> {
        if let Some(e) = check_id(components, Self::ID) {
            Err(e)
        } else if let Some(e) = check_string(components, 1, Field::AuthMethod) {
            Err(e)
        } else if let Some(e) = check_object(components, 2, Field::Details) {
            Err(e)
        } else if let Some(e) = check_end(components, 3) {
            Err(e)
        } else {
            Ok(ChallengeView { authmethod: string_at(components, 1), details: components[2] })
        }
    }

    open spec fn well_formed(message: ChallengeView) -> bool {
        &&& message.details.is_object()
    }

    open spec fn canonical(message: ChallengeView) -> ChallengeView {
        message
    }

    proof fn lemma_round_trip(message: ChallengeView) {
    }

    proof fn lemma_tag_mismatch(components: Seq<JsonView>) {
    }

    proof fn lemma_leading_tag(message: ChallengeView) {
    }

    proof fn lemma_writable(message: ChallengeView) {
    }

    fn encode(&self) -> (r: Result<Vec<Json>, Error>) {
        ser_value_is_object(&self.details, Field::Details)?;
        let mut out: Vec<Json> = Vec::new();
        out.push(Json::unsigned(Self::ID));
        out.push(Json::String(self.authmethod.clone()));
        out.push(self.details.clone());
        assert(out.deep_view() =~= seq![
            unsigned(Self::ID),
            JsonView::String(self.authmethod@),
            self.details@,
        ]);
        Ok(out)
    }

    fn decode(components: &Vec<Json>) -> (r: Result<Self, Error>) {
        validate_id(components, Self::ID)?;
        let authmethod = deser_string_element(components, 1, Field::AuthMethod)?;
        let details = deser_object_element(components, 2, Field::Details)?;
        deser_end(components, 3)?;
        Ok(Challenge { authmethod, details })
    }
}

} // verus!
