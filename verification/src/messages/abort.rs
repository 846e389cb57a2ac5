//! The refusal of a session, or its abrupt end.

use vstd::prelude::*;
use crate::error::{Error, ErrorView, Field};
use crate::roles::Roles;
use crate::value::{Json, JsonView};
use super::helpers::{
    check_end, check_id, check_object, check_string, deser_end, deser_object_element,
    deser_string_element, ser_value_is_object, string_at, unsigned, validate_id,
};
use super::{MessageDirection, WampMessage};

verus! {

/// The refusal of a session, or its abrupt end.
///
/// On the wire: `[3, details, reason]`.
#[derive(Debug, PartialEq, Eq)]
pub struct Abort {
    pub details: Json,
    pub reason: String,
}

/// The mathematical model of the message [`Abort`].
pub struct AbortView {
    pub details: JsonView,
    pub reason: Seq<char>,
}

impl View for Abort {
    type V = AbortView;

    open spec fn view(&self) -> AbortView {
        AbortView {
            details: self.details@,
            reason: self.reason@,
        }
    }
}

impl Clone for Abort {
    fn clone(&self) -> (r: Self)
        ensures
            r@ == self@,
    {
        Abort {
            details: self.details.clone(),
            reason: self.reason.clone(),
        }
    }
}

impl Abort {
    /// The tag that leads the message on the wire.
    pub const ID: u64 = 3;
}

impl WampMessage for Abort {
    const ID: u64 = Abort::ID;

    open spec fn spec_direction(role: Roles) -> MessageDirection {
        match role {
            Roles::Callee => MessageDirection { receives: true, sends: false },
            Roles::Caller => MessageDirection { receives: true, sends: false },
            Roles::Publisher => MessageDirection { receives: true, sends: false },
            Roles::Subscriber => MessageDirection { receives: true, sends: false },
            Roles::Dealer => MessageDirection { receives: false, sends: true },
            Roles::Broker => MessageDirection { receives: false, sends: true },
        }
    }

    fn direction(role: Roles) -> (d: MessageDirection) {
        match role {
            Roles::Callee => MessageDirection { receives: true, sends: false },
            Roles::Caller => MessageDirection { receives: true, sends: false },
            Roles::Publisher => MessageDirection { receives: true, sends: false },
            Roles::Subscriber => MessageDirection { receives: true, sends: false },
            Roles::Dealer => MessageDirection { receives: false, sends: true },
            Roles::Broker => MessageDirection { receives: false, sends: true },
        }
    }

    open spec fn spec_encode(message: AbortView) -> Result<Seq<JsonView>, ErrorView> {
        if !message.details.is_object() {
            Err(ErrorView::InvalidField(Field::Details))
        } else {
            Ok(seq![unsigned(Self::ID), message.details, JsonView::String(message.reason)])
        }
    }

    open spec fn spec_decode(components: Seq<JsonView>) -> Result<AbortView, ErrorView> {
        if let Some(e) = check_id(components, Self::ID) {
            Err(e)
        } else if let Some(e) = check_object(components, 1, Field::Details) {
            Err(e)
        } else if let Some(e) = check_string(components, 2, Field::Reason) {
            Err(e)
        } else if let Some(e) = check_end(components, 3) {
            Err(e)
        } else {
            Ok(AbortView { details: components[1], reason: string_at(components, 2) })
        }
    }

    open spec fn well_formed(message: AbortView) -> bool {
        &&& message.details.is_object()
    }

    open spec fn canonical(message: AbortView) -> AbortView {
        message
    }

    proof fn lemma_round_trip(message: AbortView) {
    }

    proof fn lemma_tag_mismatch(components: Seq<JsonView>) {
    }

    proof fn lemma_leading_tag(message: AbortView) {
    }

    proof fn lemma_writable(message: AbortView) {
    }

    fn encode(&self) -> (r: Result<Vec<Json>, Error>) {
        ser_value_is_object(&self.details, Field::Details)?;
        let mut out: Vec<Json> = Vec::new();
        out.push(Json::unsigned(Self::ID));
        out.push(self.details.clone());
        out.push(Json::String(self.reason.clone()));
        assert(out.deep_view() =~= seq![
            unsigned(Self::ID),
            self.details@,
            JsonView::String(self.reason@),
        ]);
        Ok(out)
    }

    fn decode(components: &Vec<Json>) -> (r: Result<Self, Error>) {
        validate_id(components, Self::ID)?;
        let details = deser_object_element(components, 1, Field::Details)?;
        let reason = deser_string_element(components, 2, Field::Reason)?;
        deser_end(components, 3)?;
        Ok(Abort { details, reason })
    }
}

} // verus!
