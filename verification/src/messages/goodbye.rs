//! The orderly end of a session.

use vstd::prelude::*;
use crate::error::{Error, ErrorView, Field};
use crate::roles::Roles;
use crate::value::{Json, JsonView};
use super::helpers::{
    check_end, check_id, check_object, check_string, deser_end, deser_object_element,
    deser_string_element, ser_value_is_object, string_at, unsigned, validate_id,
};
use super::{MessageDirection, WampMessage};

verus! {

/// The orderly end of a session.
///
/// On the wire: `[6, details, reason]`.
#[derive(Debug, PartialEq, Eq)]
pub struct Goodbye {
    pub details: Json,
    pub reason: String,
}

/// The mathematical model of the message [`Goodbye`].
pub struct GoodbyeView {
    pub details: JsonView,
    pub reason: Seq<char>,
}

impl View for Goodbye {
    type V = GoodbyeView;

    open spec fn view(&self) -> GoodbyeView {
        GoodbyeView {
            details: self.details@,
            reason: self.reason@,
        }
    }
}

impl Clone for Goodbye {
    fn clone(&self) -> (r: Self)
        ensures
            r@ == self@,
    {
        Goodbye {
            details: self.details.clone(),
            reason: self.reason.clone(),
        }
    }
}

impl Goodbye {
    /// The tag that leads the message on the wire.
    pub const ID: u64 = 6;
}

impl WampMessage for Goodbye {
    const ID: u64 = Goodbye::ID;

    open spec fn spec_direction(role: Roles) -> MessageDirection {
        match role {
            Roles::Callee => MessageDirection { receives: true, sends: true },
            Roles::Caller => MessageDirection { receives: true, sends: true },
            Roles::Publisher => MessageDirection { receives: true, sends: true },
            Roles::Subscriber => MessageDirection { receives: true, sends: false },
            Roles::Dealer => MessageDirection { receives: true, sends: true },
            Roles::Broker => MessageDirection { receives: true, sends: true },
        }
    }

    fn direction(role: Roles) -> (d: MessageDirection) {
        match role {
            Roles::Callee => MessageDirection { receives: true, sends: true },
            Roles::Caller => MessageDirection { receives: true, sends: true },
            Roles::Publisher => MessageDirection { receives: true, sends: true },
            Roles::Subscriber => MessageDirection { receives: true, sends: false },
            Roles::Dealer => MessageDirection { receives: true, sends: true },
            Roles::Broker => MessageDirection { receives: true, sends: true },
        }
    }

    open spec fn spec_encode(message: GoodbyeView) -> Result<Seq<JsonView>, ErrorView> {
        if !message.details.is_object() {
            Err(ErrorView::InvalidField(Field::Details))
        } else {
            Ok(seq![unsigned(Self::ID), message.details, JsonView::String(message.reason)])
        }
    }

    open spec fn spec_decode(components: Seq<JsonView>) -> Result<GoodbyeView, ErrorView> {
        if let Some(e) = check_id(components, Self::ID) {
            Err(e)
        } else if let Some(e) = check_object(components, 1, Field::Details) {
            Err(e)
        } else if let Some(e) = check_string(components, 2, Field::Reason) {
            Err(e)
        } else if let Some(e) = check_end(components, 3) {
            Err(e)
        } else {
            Ok(GoodbyeView { details: components[1], reason: string_at(components, 2) })
        }
    }

    open spec fn well_formed(message: GoodbyeView) -> bool {
        &&& message.details.is_object()
    }

    open spec fn canonical(message: GoodbyeView) -> GoodbyeView {
        message
    }

    proof fn lemma_round_trip(message: GoodbyeView) {
    }

    proof fn lemma_tag_mismatch(components: Seq<JsonView>) {
    }

    proof fn lemma_leading_tag(message: GoodbyeView) {
    }

    proof fn lemma_writable(message: GoodbyeView) {
    }

    fn encode(&self) -> (r: Result<Vec<Json>, Error>) {
        ser_value_is_object(&self.details, Field::Details)?;
        let mut out: Vec<Json> = Vec::new();
        out.push(Json::unsigned(Self::ID));
        out.push(self.details.clone());
        out.push(Json::String(self.reason.clone()));
        assert(out.deep_view() =~= seq![
            unsigned(Self::ID),
            self.details@,
            JsonView::String(self.reason@),
        ]);
        Ok(out)
    }

    fn decode(components: &Vec<Json>) -> (r: Result<Self, Error>) {
        validate_id(components, Self::ID)?;
        let details = deser_object_element(components, 1, Field::Details)?;
        let reason = deser_string_element(components, 2, Field::Reason)?;
        deser_end(components, 3)?;
        Ok(Goodbye { details, reason })
    }
}

} // verus!
