//! The demand that a callee stop working on an invocation.

use vstd::prelude::*;
use crate::error::{Error, ErrorView, Field};
use crate::roles::Roles;
use crate::value::{Json, JsonView};
use super::helpers::{
    check_end, check_id, check_object, check_unsigned, deser_end, deser_object_element,
    deser_u64_element, ser_value_is_object, unsigned, unsigned_at, validate_id,
};
use super::{MessageDirection, WampMessage};

verus! {

/// The demand that a callee stop working on an invocation.
///
/// On the wire: `[69, request_id, options]`.
#[derive(Debug, PartialEq, Eq)]
pub struct Interrupt {
    pub request_id: u64,
    pub options: Json,
}

/// The mathematical model of the message [`Interrupt`].
pub struct InterruptView {
    pub request_id: u64,
    pub options: JsonView,
}

impl View for Interrupt {
    type V = InterruptView;

    open spec fn view(&self) -> InterruptView {
        InterruptView {
            request_id: self.request_id,
            options: self.options@,
        }
    }
}

impl Clone for Interrupt {
    fn clone(&self) -> (r: Self)
        ensures
            r@ == self@,
    {
        Interrupt {
            request_id: self.request_id,
            options: self.options.clone(),
        }
    }
}

impl Interrupt {
    /// The tag that leads the message on the wire.
    pub const ID: u64 = 69;
}

impl WampMessage for Interrupt {
    const ID: u64 = Interrupt::ID;

    open spec fn spec_direction(role: Roles) -> MessageDirection {
        match role {
            Roles::Callee => MessageDirection { receives: true, sends: false },
            Roles::Caller => MessageDirection { receives: false, sends: false },
            Roles::Publisher => MessageDirection { receives: false, sends: false },
            Roles::Subscriber => MessageDirection { receives: false, sends: false },
            Roles::Dealer => MessageDirection { receives: false, sends: true },
            Roles::Broker => MessageDirection { receives: false, sends: false },
        }
    }

    fn direction(role: Roles) -> (d: MessageDirection) {
        match role {
            Roles::Callee => MessageDirection { receives: true, sends: false },
            Roles::Caller => MessageDirection { receives: false, sends: false },
            Roles::Publisher => MessageDirection { receives: false, sends: false },
            Roles::Subscriber => MessageDirection { receives: false, sends: false },
            Roles::Dealer => MessageDirection { receives: false, sends: true },
            Roles::Broker => MessageDirection { receives: false, sends: false },
        }
    }

    open spec fn spec_encode(message: InterruptView) -> Result<Seq<JsonView>, ErrorView> {
        if !message.options.is_object() {
            Err(ErrorView::InvalidField(Field::Options))
        } else {
            Ok(seq![unsigned(Self::ID), unsigned(message.request_id), message.options])
        }
    }

    open spec fn spec_decode(components: Seq<JsonView>) -> Result<InterruptView, ErrorView> {
        if let Some(e) = check_id(components, Self::ID) {
            Err(e)
        } else if let Some(e) = check_unsigned(components, 1, Field::RequestId) {
            Err(e)
        } else if let Some(e) = check_object(components, 2, Field::Options) {
            Err(e)
        } else if let Some(e) = check_end(components, 3) {
            Err(e)
        } else {
            Ok(InterruptView { request_id: unsigned_at(components, 1), options: components[2] })
        }
    }

    open spec fn well_formed(message: InterruptView) -> bool {
        &&& message.options.is_object()
    }

    open spec fn canonical(message: InterruptView) -> InterruptView {
        message
    }

    proof fn lemma_round_trip(message: InterruptView) {
    }

    proof fn lemma_tag_mismatch(components: Seq<JsonView>) {
    }

    proof fn lemma_leading_tag(message: InterruptView) {
    }

    proof fn lemma_writable(message: InterruptView) {
    }

    fn encode(&self) -> (r: Result<Vec<Json>, Error>) {
        ser_value_is_object(&self.options, Field::Options)?;
        let mut out: Vec<Json> = Vec::new();
        out.push(Json::unsigned(Self::ID));
        out.push(Json::unsigned(self.request_id));
        out.push(self.options.clone());
        assert(out.deep_view() =~= seq![
            unsigned(Self::ID),
            unsigned(self.request_id),
            self.options@,
        ]);
        Ok(out)
    }

    fn decode(components: &Vec<Json>) -> (r: Result<Self, Error>) {
        validate_id(components, Self::ID)?;
        let request_id = deser_u64_element(components, 1, Field::RequestId)?;
        let options = deser_object_element(components, 2, Field::Options)?;
        deser_end(components, 3)?;
        Ok(Interrupt { request_id, options })
    }
}

} // verus!
