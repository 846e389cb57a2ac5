//! The request to call a procedure.

use vstd::prelude::*;
use crate::error::{Error, ErrorView, Field};
use crate::roles::Roles;
use crate::value::{Json, JsonView};
use super::helpers::{
    check_args, check_end, check_id, check_kwargs, check_object, check_string, check_unsigned,
    deser_args_element, deser_end, deser_kwargs_element, deser_object_element,
    deser_string_element, deser_u64_element, no_args, push_trailing, ser_value_is_args,
    ser_value_is_kwargs, ser_value_is_object, string_at, trailing, unsigned, unsigned_at,
    validate_id, value_at,
};
use super::{MessageDirection, WampMessage};

verus! {

/// The request to call a procedure.
///
/// On the wire: `[48, request_id, options, procedure, args?, kwargs?]`.
#[derive(Debug, PartialEq, Eq)]
pub struct Call {
    pub request_id: u64,
    pub options: Json,
    pub procedure: String,
    pub args: Json,
    pub kwargs: Json,
}

/// The mathematical model of the message [`Call`].
pub struct CallView {
    pub request_id: u64,
    pub options: JsonView,
    pub procedure: Seq<char>,
    pub args: JsonView,
    pub kwargs: JsonView,
}

impl View for Call {
    type V = CallView;

    open spec fn view(&self) -> CallView {
        CallView {
            request_id: self.request_id,
            options: self.options@,
            procedure: self.procedure@,
            args: self.args@,
            kwargs: self.kwargs@,
        }
    }
}

impl Clone for Call {
    fn clone(&self) -> (r: Self)
        ensures
            r@ == self@,
    {
        Call {
            request_id: self.request_id,
            options: self.options.clone(),
            procedure: self.procedure.clone(),
            args: self.args.clone(),
            kwargs: self.kwargs.clone(),
        }
    }
}

impl Call {
    /// The tag that leads the message on the wire.
    pub const ID: u64 = 48;
}

impl WampMessage for Call {
    const ID: u64 = Call::ID;

    open spec fn spec_direction(role: Roles) -> MessageDirection {
        match role {
            Roles::Callee => MessageDirection { receives: false, sends: false },
            Roles::Caller => MessageDirection { receives: false, sends: true },
            Roles::Publisher => MessageDirection { receives: false, sends: false },
            Roles::Subscriber => MessageDirection { receives: false, sends: false },
            Roles::Dealer => MessageDirection { receives: false, sends: true },
            Roles::Broker => MessageDirection { receives: false, sends: false },
        }
    }

    fn direction(role: Roles) -> (d: MessageDirection) {
        match role {
            Roles::Callee => MessageDirection { receives: false, sends: false },
            Roles::Caller => MessageDirection { receives: false, sends: true },
            Roles::Publisher => MessageDirection { receives: false, sends: false },
            Roles::Subscriber => MessageDirection { receives: false, sends: false },
            Roles::Dealer => MessageDirection { receives: false, sends: true },
            Roles::Broker => MessageDirection { receives: false, sends: false },
        }
    }

    open spec fn spec_encode(message: CallView) -> Result<Seq<JsonView>, ErrorView> {
        if !message.options.is_object() {
            Err(ErrorView::InvalidField(Field::Options))
        } else if !message.args.is_args() {
            Err(ErrorView::InvalidField(Field::Args))
        } else if !message.kwargs.is_kwargs() {
            Err(ErrorView::InvalidField(Field::Kwargs))
        } else {
            Ok(
                seq![
                    unsigned(Self::ID),
                    unsigned(message.request_id),
                    message.options,
                    JsonView::String(message.procedure),
                ] + trailing(message.args, message.kwargs),
            )
        }
    }

    open spec fn spec_decode(components: Seq<JsonView>) -> Result<CallView, ErrorView> {
        if let Some(e) = check_id(components, Self::ID) {
            Err(e)
        } else if let Some(e) = check_unsigned(components, 1, Field::RequestId) {
            Err(e)
        } else if let Some(e) = check_object(components, 2, Field::Options) {
            Err(e)
        } else if let Some(e) = check_string(components, 3, Field::Procedure) {
            Err(e)
        } else if let Some(e) = check_args(components, 4) {
            Err(e)
        } else if let Some(e) = check_kwargs(components, 5) {
            Err(e)
        } else if let Some(e) = check_end(components, 6) {
            Err(e)
        } else {
            Ok(
                CallView {
                    request_id: unsigned_at(components, 1),
                    options: components[2],
                    procedure: string_at(components, 3),
                    args: value_at(components, 4),
                    kwargs: value_at(components, 5),
                },
            )
        }
    }

    open spec fn well_formed(message: CallView) -> bool {
        &&& message.options.is_object()
        &&& message.args.is_args()
        &&& message.kwargs.is_kwargs()
    }

    open spec fn canonical(message: CallView) -> CallView {
        if message.args is Null && !(message.kwargs is Null) {
            CallView { args: no_args(), ..message }
        } else {
            message
        }
    }

    proof fn lemma_round_trip(message: CallView) {
    }

    proof fn lemma_tag_mismatch(components: Seq<JsonView>) {
    }

    proof fn lemma_leading_tag(message: CallView) {
    }

    proof fn lemma_writable(message: CallView) {
    }

    fn encode(&self) -> (r: Result<Vec<Json>, Error>) {
        ser_value_is_object(&self.options, Field::Options)?;
        ser_value_is_args(&self.args)?;
        ser_value_is_kwargs(&self.kwargs)?;
        let mut out: Vec<Json> = Vec::new();
        out.push(Json::unsigned(Self::ID));
        out.push(Json::unsigned(self.request_id));
        out.push(self.options.clone());
        out.push(Json::String(self.procedure.clone()));
        assert(out.deep_view() =~= seq![
            unsigned(Self::ID),
            unsigned(self.request_id),
            self.options@,
            JsonView::String(self.procedure@),
        ]);
        push_trailing(&mut out, &self.args, &self.kwargs);
        Ok(out)
    }

    fn decode(components: &Vec<Json>) -> (r: Result<Self, Error>) {
        validate_id(components, Self::ID)?;
        let request_id = deser_u64_element(components, 1, Field::RequestId)?;
        let options = deser_object_element(components, 2, Field::Options)?;
        let procedure = deser_string_element(components, 3, Field::Procedure)?;
        let args = deser_args_element(components, 4)?;
        let kwargs = deser_kwargs_element(components, 5)?;
        deser_end(components, 6)?;
        Ok(Call { request_id, options, procedure, args, kwargs })
    }
}

} // verus!
