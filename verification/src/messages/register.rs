//! The request to register a procedure.

use vstd::prelude::*;
use crate::error::{Error, ErrorView, Field};
use crate::roles::Roles;
use crate::value::{Json, JsonView};
use super::helpers::{
    check_end, check_id, check_object, check_string, check_unsigned, deser_end,
    deser_object_element, deser_string_element, deser_u64_element, ser_value_is_object, string_at,
    unsigned, unsigned_at, validate_id,
};
use super::{MessageDirection, WampMessage};

verus! {

/// The request to register a procedure.
///
/// On the wire: `[64, request_id, options, procedure]`.
#[derive(Debug, PartialEq, Eq)]
pub struct Register {
    pub request_id: u64,
    pub options: Json,
    pub procedure: String,
}

/// The mathematical model of the message [`Register`].
pub struct RegisterView {
    pub request_id: u64,
    pub options: JsonView,
    pub procedure: Seq<char>,
}

impl View for Register {
    type V = RegisterView;

    open spec fn view(&self) -> RegisterView {
        RegisterView {
            request_id: self.request_id,
            options: self.options@,
            procedure: self.procedure@,
        }
    }
}

impl Clone for Register {
    fn clone(&self) -> (r: Self)
        ensures
            r@ == self@,
    {
        Register {
            request_id: self.request_id,
            options: self.options.clone(),
            procedure: self.procedure.clone(),
        }
    }
}

impl Register {
    /// The tag that leads the message on the wire.
    pub const ID: u64 = 64;
}

impl WampMessage for Register {
    const ID: u64 = Register::ID;

    open spec fn spec_direction(role: Roles) -> MessageDirection {
        match role {
            Roles::Callee => MessageDirection { receives: false, sends: true },
            Roles::Caller => MessageDirection { receives: false, sends: false },
            Roles::Publisher => MessageDirection { receives: false, sends: false },
            Roles::Subscriber => MessageDirection { receives: false, sends: false },
            Roles::Dealer => MessageDirection { receives: true, sends: false },
            Roles::Broker => MessageDirection { receives: false, sends: false },
        }
    }

    fn direction(role: Roles) -> (d: MessageDirection) {
        match role {
            Roles::Callee => MessageDirection { receives: false, sends: true },
            Roles::Caller => MessageDirection { receives: false, sends: false },
            Roles::Publisher => MessageDirection { receives: false, sends: false },
            Roles::Subscriber => MessageDirection { receives: false, sends: false },
            Roles::Dealer => MessageDirection { receives: true, sends: false },
            Roles::Broker => MessageDirection { receives: false, sends: false },
        }
    }

    open spec fn spec_encode(message: RegisterView) -> Result<Seq<JsonView>, ErrorView> {
        if !message.options.is_object() {
            Err(ErrorView::InvalidField(Field::Options))
        } else {
            Ok(seq![
                unsigned(Self::ID),
                unsigned(message.request_id),
                message.options,
                JsonView::String(message.procedure),
            ])
        }
    }

    open spec fn spec_decode(components: Seq<JsonView>) -> Result<RegisterView, ErrorView> {
        if let Some(e) = check_id(components, Self::ID) {
            Err(e)
        } else if let Some(e) = check_unsigned(components, 1, Field::RequestId) {
            Err(e)
        } else if let Some(e) = check_object(components, 2, Field::Options) {
            Err(e)
        } else if let Some(e) = check_string(components, 3, Field::Procedure) {
            Err(e)
        } else if let Some(e) = check_end(components, 4) {
            Err(e)
        } else {
            Ok(
                RegisterView {
                    request_id: unsigned_at(components, 1),
                    options: components[2],
                    procedure: string_at(components, 3),
                },
            )
        }
    }

    open spec fn well_formed(message: RegisterView) -> bool {
        &&& message.options.is_object()
    }

    open spec fn canonical(message: RegisterView) -> RegisterView {
        message
    }

    proof fn lemma_round_trip(message: RegisterView) {
    }

    proof fn lemma_tag_mismatch(components: Seq<JsonView>) {
    }

    proof fn lemma_leading_tag(message: RegisterView) {
    }

    proof fn lemma_writable(message: RegisterView) {
    }

    fn encode(&self) -> (r: Result<Vec<Json>, Error>) {
        ser_value_is_object(&self.options, Field::Options)?;
        let mut out: Vec<Json> = Vec::new();
        out.push(Json::unsigned(Self::ID));
        out.push(Json::unsigned(self.request_id));
        out.push(self.options.clone());
        out.push(Json::String(self.procedure.clone()));
        assert(out.deep_view() =~= seq![
            unsigned(Self::ID),
            unsigned(self.request_id),
            self.options@,
            JsonView::String(self.procedure@),
        ]);
        Ok(out)
    }

    fn decode(components: &Vec<Json>) -> (r: Result<Self, Error>) {
        validate_id(components, Self::ID)?;
        let request_id = deser_u64_element(components, 1, Field::RequestId)?;
        let options = deser_object_element(components, 2, Field::Options)?;
        let procedure = deser_string_element(components, 3, Field::Procedure)?;
        deser_end(components, 4)?;
        Ok(Register { request_id, options, procedure })
    }
}

} // verus!
