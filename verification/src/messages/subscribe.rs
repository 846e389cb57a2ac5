//! The request to subscribe to a topic.

use vstd::prelude::*;
use crate::error::{Error, ErrorView, Field};
use crate::roles::Roles;
use crate::value::{Json, JsonView};
use super::helpers::{
    check_end, check_id, check_object, check_string, check_unsigned, deser_end,
    deser_object_element, deser_string_element, deser_u64_element, ser_value_is_object, string_at,
    unsigned, unsigned_at, validate_id,
};
use super::{MessageDirection, WampMessage};

verus! {

/// The request to subscribe to a topic.
///
/// On the wire: `[32, request_id, options, topic]`.
#[derive(Debug, PartialEq, Eq)]
pub struct Subscribe {
    pub request_id: u64,
    pub options: Json,
    pub topic: String,
}

/// The mathematical model of the message [`Subscribe`].
pub struct SubscribeView {
    pub request_id: u64,
    pub options: JsonView,
    pub topic: Seq<char>,
}

impl View for Subscribe {
    type V = SubscribeView;

    open spec fn view(&self) -> SubscribeView {
        SubscribeView {
            request_id: self.request_id,
            options: self.options@,
            topic: self.topic@,
        }
    }
}

impl Clone for Subscribe {
    fn clone(&self) -> (r: Self)
        ensures
            r@ == self@,
    {
        Subscribe {
            request_id: self.request_id,
            options: self.options.clone(),
            topic: self.topic.clone(),
        }
    }
}

impl Subscribe {
    /// The tag that leads the message on the wire.
    pub const ID: u64 = 32;
}

impl WampMessage for Subscribe {
    const ID: u64 = Subscribe::ID;

    open spec fn spec_direction(role: Roles) -> MessageDirection {
        match role {
            Roles::Callee => MessageDirection { receives: false, sends: false },
            Roles::Caller => MessageDirection { receives: false, sends: false },
            Roles::Publisher => MessageDirection { receives: false, sends: false },
            Roles::Subscriber => MessageDirection { receives: false, sends: true },
            Roles::Dealer => MessageDirection { receives: false, sends: false },
            Roles::Broker => MessageDirection { receives: true, sends: false },
        }
    }

    fn direction(role: Roles) -> (d: MessageDirection) {
        match role {
            Roles::Callee => MessageDirection { receives: false, sends: false },
            Roles::Caller => MessageDirection { receives: false, sends: false },
            Roles::Publisher => MessageDirection { receives: false, sends: false },
            Roles::Subscriber => MessageDirection { receives: false, sends: true },
            Roles::Dealer => MessageDirection { receives: false, sends: false },
            Roles::Broker => MessageDirection { receives: true, sends: false },
        }
    }

    open spec fn spec_encode(message: SubscribeView) -> Result<Seq<JsonView>, ErrorView> {
        if !message.options.is_object() {
            Err(ErrorView::InvalidField(Field::Options))
        } else {
            Ok(seq![
                unsigned(Self::ID),
                unsigned(message.request_id),
                message.options,
                JsonView::String(message.topic),
            ])
        }
    }

    open spec fn spec_decode(components: Seq<JsonView>) -> Result<SubscribeView, ErrorView> {
        if let Some(e) = check_id(components, Self::ID) {
            Err(e)
        } else if let Some(e) = check_unsigned(components, 1, Field::RequestId) {
            Err(e)
        } else if let Some(e) = check_object(components, 2, Field::Options) {
            Err(e)
        } else if let Some(e) = check_string(components, 3, Field::Topic) {
            Err(e)
        } else if let Some(e) = check_end(components, 4) {
            Err(e)
        } else {
            Ok(
                SubscribeView {
                    request_id: unsigned_at(components, 1),
                    options: components[2],
                    topic: string_at(components, 3),
                },
            )
        }
    }

    open spec fn well_formed(message: SubscribeView) -> bool {
        &&& message.options.is_object()
    }

    open spec fn canonical(message: SubscribeView) -> SubscribeView {
        message
    }

    proof fn lemma_round_trip(message: SubscribeView) {
    }

    proof fn lemma_tag_mismatch(components: Seq<JsonView>) {
    }

    proof fn lemma_leading_tag(message: SubscribeView) {
    }

    proof fn lemma_writable(message: SubscribeView) {
    }

    fn encode(&self) -> (r: Result<Vec<Json>, Error>) {
        ser_value_is_object(&self.options, Field::Options)?;
        let mut out: Vec<Json> = Vec::new();
        out.push(Json::unsigned(Self::ID));
        out.push(Json::unsigned(self.request_id));
        out.push(self.options.clone());
        out.push(Json::String(self.topic.clone()));
        assert(out.deep_view() =~= seq![
            unsigned(Self::ID),
            unsigned(self.request_id),
            self.options@,
            JsonView::String(self.topic@),
        ]);
        Ok(out)
    }

    fn decode(components: &Vec<Json>) -> (r: Result<Self, Error>) {
        validate_id(components, Self::ID)?;
        let request_id = deser_u64_element(components, 1, Field::RequestId)?;
        let options = deser_object_element(components, 2, Field::Options)?;
        let topic = deser_string_element(components, 3, Field::Topic)?;
        deser_end(components, 4)?;
        Ok(Subscribe { request_id, options, topic })
    }
}

} // verus!
