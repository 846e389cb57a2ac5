//! The request to publish an event to a topic.

use vstd::prelude::*;
use crate::error::{Error, ErrorView, Field};
use crate::roles::Roles;
use crate::value::{Json, JsonView};
use super::helpers::{
    check_args, check_end, check_id, check_kwargs, check_object, check_string, check_unsigned,
    deser_args_element, deser_end, deser_kwargs_element, deser_object_element,
    deser_string_element, deser_u64_element, no_args, push_trailing, ser_value_is_args,
    ser_value_is_kwargs, ser_value_is_object, string_at, trailing, unsigned, unsigned_at,
    validate_id, value_at,
};
use super::{MessageDirection, WampMessage};

verus! {

/// The request to publish an event to a topic.
///
/// On the wire: `[16, request_id, options, topic, args?, kwargs?]`.
#[derive(Debug, PartialEq, Eq)]
pub struct Publish {
    pub request_id: u64,
    pub options: Json,
    pub topic: String,
    pub args: Json,
    pub kwargs: Json,
}

/// The mathematical model of the message [`Publish`].
pub struct PublishView {
    pub request_id: u64,
    pub options: JsonView,
    pub topic: Seq<char>,
    pub args: JsonView,
    pub kwargs: JsonView,
}

impl View for Publish {
    type V = PublishView;

    open spec fn view(&self) -> PublishView {
        PublishView {
            request_id: self.request_id,
            options: self.options@,
            topic: self.topic@,
            args: self.args@,
            kwargs: self.kwargs@,
        }
    }
}

impl Clone for Publish {
    fn clone(&self) -> (r: Self)
        ensures
            r@ == self@,
    {
        Publish {
            request_id: self.request_id,
            options: self.options.clone(),
            topic: self.topic.clone(),
            args: self.args.clone(),
            kwargs: self.kwargs.clone(),
        }
    }
}

impl Publish {
    /// The tag that leads the message on the wire.
    pub const ID: u64 = 16;
}

impl WampMessage for Publish {
    const ID: u64 = Publish::ID;

    open spec fn spec_direction(role: Roles) -> MessageDirection {
        match role {
            Roles::Callee => MessageDirection { receives: false, sends: true },
            Roles::Caller => MessageDirection { receives: false, sends: false },
            Roles::Publisher => MessageDirection { receives: false, sends: true },
            Roles::Subscriber => MessageDirection { receives: false, sends: false },
            Roles::Dealer => MessageDirection { receives: false, sends: false },
            Roles::Broker => MessageDirection { receives: true, sends: false },
        }
    }

    fn direction(role: Roles) -> (d: MessageDirection) {
        match role {
            Roles::Callee => MessageDirection { receives: false, sends: true },
            Roles::Caller => MessageDirection { receives: false, sends: false },
            Roles::Publisher => MessageDirection { receives: false, sends: true },
            Roles::Subscriber => MessageDirection { receives: false, sends: false },
            Roles::Dealer => MessageDirection { receives: false, sends: false },
            Roles::Broker => MessageDirection { receives: true, sends: false },
        }
    }

    open spec fn spec_encode(message: PublishView) -> Result<Seq<JsonView>, ErrorView> {
        if !message.options.is_object() {
            Err(ErrorView::InvalidField(Field::Options))
        } else if !message.args.is_args() {
            Err(ErrorView::InvalidField(Field::Args))
        } else if !message.kwargs.is_kwargs() {
            Err(ErrorView::InvalidField(Field::Kwargs))
        } else {
            Ok(
                seq![
                    unsigned(Self::ID),
                    unsigned(message.request_id),
                    message.options,
                    JsonView::String(message.topic),
                ] + trailing(message.args, message.kwargs),
            )
        }
    }

    open spec fn spec_decode(components: Seq<JsonView>) -> Result<PublishView, ErrorView> {
        if let Some(e) = check_id(components, Self::ID) {
            Err(e)
        } else if let Some(e) = check_unsigned(components, 1, Field::RequestId) {
            Err(e)
        } else if let Some(e) = check_object(components, 2, Field::Options) {
            Err(e)
        } else if let Some(e) = check_string(components, 3, Field::Topic) {
            Err(e)
        } else if let Some(e) = check_args(components, 4) {
            Err(e)
        } else if let Some(e) = check_kwargs(components, 5) {
            Err(e)
        } else if let Some(e) = check_end(components, 6) {
            Err(e)
        } else {
            Ok(
                PublishView {
                    request_id: unsigned_at(components, 1),
                    options: components[2],
                    topic: string_at(components, 3),
                    args: value_at(components, 4),
                    kwargs: value_at(components, 5),
                },
            )
        }
    }

    open spec fn well_formed(message: PublishView) -> bool {
        &&& message.options.is_object()
        &&& message.args.is_args()
        &&& message.kwargs.is_kwargs()
    }

    open spec fn canonical(message: PublishView) -> PublishView {
        if message.args is Null && !(message.kwargs is Null) {
            PublishView { args: no_args(), ..message }
        } else {
            message
        }
    }

    proof fn lemma_round_trip(message: PublishView) {
    }

    proof fn lemma_tag_mismatch(components: Seq<JsonView>) {
    }

    proof fn lemma_leading_tag(message: PublishView) {
    }

    proof fn lemma_writable(message: PublishView) {
    }

    fn encode(&self) -> (r: Result<Vec<Json>, Error>) {
        ser_value_is_object(&self.options, Field::Options)?;
        ser_value_is_args(&self.args)?;
        ser_value_is_kwargs(&self.kwargs)?;
        let mut out: Vec<Json> = Vec::new();
        out.push(Json::unsigned(Self::ID));
        out.push(Json::unsigned(self.request_id));
        out.push(self.options.clone());
        out.push(Json::String(self.topic.clone()));
        assert(out.deep_view() =~= seq![
            unsigned(Self::ID),
            unsigned(self.request_id),
            self.options@,
            JsonView::String(self.topic@),
        ]);
        push_trailing(&mut out, &self.args, &self.kwargs);
        Ok(out)
    }

    fn decode(components: &Vec<Json>) -> (r: Result<Self, Error>) {
        validate_id(components, Self::ID)?;
        let request_id = deser_u64_element(components, 1, Field::RequestId)?;
        let options = deser_object_element(components, 2, Field::Options)?;
        let topic = deser_string_element(components, 3, Field::Topic)?;
        let args = deser_args_element(components, 4)?;
        let kwargs = deser_kwargs_element(components, 5)?;
        deser_end(components, 6)?;
        Ok(Publish { request_id, options, topic, args, kwargs })
    }
}

} // verus!
