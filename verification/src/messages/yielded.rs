//! The result of an invocation, returned by the callee.

use vstd::prelude::*;
use crate::error::{Error, ErrorView, Field};
use crate::roles::Roles;
use crate::value::{Json, JsonView};
use super::helpers::{
    check_args, check_end, check_id, check_kwargs, check_object, check_unsigned,
    deser_args_element, deser_end, deser_kwargs_element, deser_object_element, deser_u64_element,
    no_args, push_trailing, ser_value_is_args, ser_value_is_kwargs, ser_value_is_object, trailing,
    unsigned, unsigned_at, validate_id, value_at,
};
use super::{MessageDirection, WampMessage};

verus! {

/// The result of an invocation, returned by the callee.
///
/// On the wire: `[70, request_id, options, args?, kwargs?]`.
#[derive(Debug, PartialEq, Eq)]
pub struct Yield {
    pub request_id: u64,
    pub options: Json,
    pub args: Json,
    pub kwargs: Json,
}

/// The mathematical model of the message [`Yield`].
pub struct YieldView {
    pub request_id: u64,
    pub options: JsonView,
    pub args: JsonView,
    pub kwargs: JsonView,
}

impl View for Yield {
    type V = YieldView;

    open spec fn view(&self) -> YieldView {
        YieldView {
            request_id: self.request_id,
            options: self.options@,
            args: self.args@,
            kwargs: self.kwargs@,
        }
    }
}

impl Clone for Yield {
    fn clone(&self) -> (r: Self)
        ensures
            r@ == self@,
    {
        Yield {
            request_id: self.request_id,
            options: self.options.clone(),
            args: self.args.clone(),
            kwargs: self.kwargs.clone(),
        }
    }
}

impl Yield {
    /// The tag that leads the message on the wire.
    pub const ID: u64 = 70;
}

impl WampMessage for Yield {
    const ID: u64 = Yield::ID;

    open spec fn spec_direction(role: Roles) -> MessageDirection {
        match role {
            Roles::Callee => MessageDirection { receives: false, sends: true },
            Roles::Caller => MessageDirection { receives: false, sends: false },
            Roles::Publisher => MessageDirection { receives: false, sends: false },
            Roles::Subscriber => MessageDirection { receives: false, sends: false },
            Roles::Dealer => MessageDirection { receives: true, sends: false },
            Roles::Broker => MessageDirection { receives: false, sends: false },
        }
    }

    fn direction(role: Roles) -> (d: MessageDirection) {
        match role {
            Roles::Callee => MessageDirection { receives: false, sends: true },
            Roles::Caller => MessageDirection { receives: false, sends: false },
            Roles::Publisher => MessageDirection { receives: false, sends: false },
            Roles::Subscriber => MessageDirection { receives: false, sends: false },
            Roles::Dealer => MessageDirection { receives: true, sends: false },
            Roles::Broker => MessageDirection { receives: false, sends: false },
        }
    }

    open spec fn spec_encode(message: YieldView) -> Result<Seq<JsonView>, ErrorView> {
        if !message.options.is_object() {
            Err(ErrorView::InvalidField(Field::Options))
        } else if !message.args.is_args() {
            Err(ErrorView::InvalidField(Field::Args))
        } else if !message.kwargs.is_kwargs() {
            Err(ErrorView::InvalidField(Field::Kwargs))
        } else {
            Ok(
                seq![
                    unsigned(Self::ID),
                    unsigned(message.request_id),
                    message.options,
                ] + trailing(message.args, message.kwargs),
            )
        }
    }

    open spec fn spec_decode(components: Seq<JsonView>) -> Result<YieldView, ErrorView> {
        if let Some(e) = check_id(components, Self::ID) {
            Err(e)
        } else if let Some(e) = check_unsigned(components, 1, Field::RequestId) {
            Err(e)
        } else if let Some(e) = check_object(components, 2, Field::Options) {
            Err(e)
        } else if let Some(e) = check_args(components, 3) {
            Err(e)
        } else if let Some(e) = check_kwargs(components, 4) {
            Err(e)
        } else if let Some(e) = check_end(components, 5) {
            Err(e)
        } else {
            Ok(
                YieldView {
                    request_id: unsigned_at(components, 1),
                    options: components[2],
                    args: value_at(components, 3),
                    kwargs: value_at(components, 4),
                },
            )
        }
    }

    open spec fn well_formed(message: YieldView) -> bool {
        &&& message.options.is_object()
        &&& message.args.is_args()
        &&& message.kwargs.is_kwargs()
    }

    open spec fn canonical(message: YieldView) -> YieldView {
        if message.args is Null && !(message.kwargs is Null) {
            YieldView { args: no_args(), ..message }
        } else {
            message
        }
    }

    proof fn lemma_round_trip(message: YieldView) {
    }

    proof fn lemma_tag_mismatch(components: Seq<JsonView>) {
    }

    proof fn lemma_leading_tag(message: YieldView) {
    }

    proof fn lemma_writable(message: YieldView) {
    }

    fn encode(&self) -> (r: Result<Vec<Json>, Error>) {
        ser_value_is_object(&self.options, Field::Options)?;
        ser_value_is_args(&self.args)?;
        ser_value_is_kwargs(&self.kwargs)?;
        let mut out: Vec<Json> = Vec::new();
        out.push(Json::unsigned(Self::ID));
        out.push(Json::unsigned(self.request_id));
        out.push(self.options.clone());
        assert(out.deep_view() =~= seq![
            unsigned(Self::ID),
            unsigned(self.request_id),
            self.options@,
        ]);
        push_trailing(&mut out, &self.args, &self.kwargs);
        Ok(out)
    }

    fn decode(components: &Vec<Json>) -> (r: Result<Self, Error>) {
        validate_id(components, Self::ID)?;
        let request_id = deser_u64_element(components, 1, Field::RequestId)?;
        let options = deser_object_element(components, 2, Field::Options)?;
        let args = deser_args_element(components, 3)?;
        let kwargs = deser_kwargs_element(components, 4)?;
        deser_end(components, 5)?;
        Ok(Yield { request_id, options, args, kwargs })
    }
}

} // verus!
