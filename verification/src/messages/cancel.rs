//! The request to cancel a call that is under way.

use vstd::prelude::*;
use crate::error::{Error, ErrorView, Field};
use crate::roles::Roles;
use crate::value::{Json, JsonView};
use super::helpers::{
    check_end, check_id, check_object, check_unsigned, deser_end, deser_object_element,
    deser_u64_element, ser_value_is_object, unsigned, unsigned_at, validate_id,
};
use super::{MessageDirection, WampMessage};

verus! {

/// The request to cancel a call that is under way.
///
/// On the wire: `[49, request_id, options]`.
#[derive(Debug, PartialEq, Eq)]
pub struct Cancel {
    pub request_id: u64,
    pub options: Json,
}

/// The mathematical model of the message [`Cancel`].
pub struct CancelView {
    pub request_id: u64,
    pub options: JsonView,
}

impl View for Cancel {
    type V = CancelView;

    open spec fn view(&self) -> CancelView {
        CancelView {
            request_id: self.request_id,
            options: self.options@,
        }
    }
}

impl Clone for Cancel {
    fn clone(&self) -> (r: Self)
        ensures
            r@ == self@,
    {
        Cancel {
            request_id: self.request_id,
            options: self.options.clone(),
        }
    }
}

impl Cancel {
    /// The tag that leads the message on the wire.
    pub const ID: u64 = 49;
}

impl WampMessage for Cancel {
    const ID: u64 = Cancel::ID;

    open spec fn spec_direction(role: Roles) -> MessageDirection {
        match role {
            Roles::Callee => MessageDirection { receives: false, sends: false },
            Roles::Caller => MessageDirection { receives: false, sends: true },
            Roles::Publisher => MessageDirection { receives: false, sends: false },
            Roles::Subscriber => MessageDirection { receives: false, sends: false },
            Roles::Dealer => MessageDirection { receives: false, sends: true },
            Roles::Broker => MessageDirection { receives: false, sends: false },
        }
    }

    fn direction(role: Roles) -> (d: MessageDirection) {
        match role {
            Roles::Callee => MessageDirection { receives: false, sends: false },
            Roles::Caller => MessageDirection { receives: false, sends: true },
            Roles::Publisher => MessageDirection { receives: false, sends: false },
            Roles::Subscriber => MessageDirection { receives: false, sends: false },
            Roles::Dealer => MessageDirection { receives: false, sends: true },
            Roles::Broker => MessageDirection { receives: false, sends: false },
        }
    }

    open spec fn spec_encode(message: CancelView) -> Result<Seq<JsonView>, ErrorView> {
        if !message.options.is_object() {
            Err(ErrorView::InvalidField(Field::Options))
        } else {
            Ok(seq![unsigned(Self::ID), unsigned(message.request_id), message.options])
        }
    }

    open spec fn spec_decode(components: Seq<JsonView>) -> Result<CancelView, ErrorView> {
        if let Some(e) = check_id(components, Self::ID) {
            Err(e)
        } else if let Some(e) = check_unsigned(components, 1, Field::RequestId) {
            Err(e)
        } else if let Some(e) = check_object(components, 2, Field::Options) {
            Err(e)
        } else if let Some(e) = check_end(components, 3) {
            Err(e)
        } else {
            Ok(CancelView { request_id: unsigned_at(components, 1), options: components[2] })
        }
    }

    open spec fn well_formed(message: CancelView) -> bool {
        &&& message.options.is_object()
    }

    open spec fn canonical(message: CancelView) -> CancelView {
        message
    }

    proof fn lemma_round_trip(message: CancelView) {
    }

    proof fn lemma_tag_mismatch(components: Seq<JsonView>) {
    }

    proof fn lemma_leading_tag(message: CancelView) {
    }

    proof fn lemma_writable(message: CancelView) {
    }

    fn encode(&self) -> (r: Result<Vec<Json>, Error>) {
        ser_value_is_object(&self.options, Field::Options)?;
        let mut out: Vec<Json> = Vec::new();
        out.push(Json::unsigned(Self::ID));
        out.push(Json::unsigned(self.request_id));
        out.push(self.options.clone());
        assert(out.deep_view() =~= seq![
            unsigned(Self::ID),
            unsigned(self.request_id),
            self.options@,
        ]);
        Ok(out)
    }

    fn decode(components: &Vec<Json>) -> (r: Result<Self, Error>) {
        validate_id(components, Self::ID)?;
        let request_id = deser_u64_element(components, 1, Field::RequestId)?;
        let options = deser_object_element(components, 2, Field::Options)?;
        deser_end(components, 3)?;
        Ok(Cancel { request_id, options })
    }
}

} // verus!
