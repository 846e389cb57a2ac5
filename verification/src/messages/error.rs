//! The failure of a request, which names the kind of request that it answers.

use vstd::prelude::*;
use crate::error::{Error, ErrorView, Field};
use crate::roles::Roles;
use crate::value::{Json, JsonView};
use super::helpers::{
    check_end, check_event, check_id, check_object, check_string, check_unsigned,
    deser_end, deser_event_element, deser_object_element, deser_string_element,
    deser_u64_element, event_at, ser_value_is_object, string_at, unsigned, unsigned_at,
    validate_id,
};
use super::{
    Call, Cancel, Invocation, MessageDirection, Messages, MessagesView, Publish, Register,
    Subscribe, Unregister, Unsubscribe, WampMessage,
};

verus! {

/// The kinds of request that an error can answer.
#[derive(Clone, Copy, Debug, PartialEq, Eq, Structural)]
pub enum WampErrorEvent {
    Unsubscribe,
    Subscribe,
    Publish,
    Register,
    Unregister,
    Invocation,
    Cancel,
    Call,
}

impl WampErrorEvent {
    /// The tag of the message type that the kind stands for.
    pub open spec fn spec_id(self) -> u64 {
        match self {
            WampErrorEvent::Unsubscribe => Unsubscribe::ID,
            WampErrorEvent::Subscribe => Subscribe::ID,
            WampErrorEvent::Publish => Publish::ID,
            WampErrorEvent::Register => Register::ID,
            WampErrorEvent::Unregister => Unregister::ID,
            WampErrorEvent::Invocation => Invocation::ID,
            WampErrorEvent::Cancel => Cancel::ID,
            WampErrorEvent::Call => Call::ID,
        }
    }

    /// The kind that a tag stands for, if it is the tag of one of the eight
    /// message types that carry a request.
    pub open spec fn spec_from_id(id: u64) -> Option<WampErrorEvent> {
        if id == Unsubscribe::ID {
            Some(WampErrorEvent::Unsubscribe)
        } else if id == Subscribe::ID {
            Some(WampErrorEvent::Subscribe)
        } else if id == Publish::ID {
            Some(WampErrorEvent::Publish)
        } else if id == Register::ID {
            Some(WampErrorEvent::Register)
        } else if id == Unregister::ID {
            Some(WampErrorEvent::Unregister)
        } else if id == Invocation::ID {
            Some(WampErrorEvent::Invocation)
        } else if id == Cancel::ID {
            Some(WampErrorEvent::Cancel)
        } else if id == Call::ID {
            Some(WampErrorEvent::Call)
        } else {
            None
        }
    }

    /// The kind of request that a message is, by its tag.
    pub open spec fn of_message(message: MessagesView) -> Option<WampErrorEvent> {
        match message.id() {
            Some(id) => Self::spec_from_id(id),
            None => None,
        }
    }

    /// The tag of the message type that the kind stands for.
    pub fn id(self) -> (id: u64)
        ensures
            id == self.spec_id(),
    {
        match self {
            WampErrorEvent::Unsubscribe => Unsubscribe::ID,
            WampErrorEvent::Subscribe => Subscribe::ID,
            WampErrorEvent::Publish => Publish::ID,
            WampErrorEvent::Register => Register::ID,
            WampErrorEvent::Unregister => Unregister::ID,
            WampErrorEvent::Invocation => Invocation::ID,
            WampErrorEvent::Cancel => Cancel::ID,
            WampErrorEvent::Call => Call::ID,
        }
    }

    /// The kind that a tag stands for.
    pub fn from_id(id: u64) -> (r: Option<WampErrorEvent>)
        ensures
            r == Self::spec_from_id(id),
    {
        if id == Unsubscribe::ID {
            Some(WampErrorEvent::Unsubscribe)
        } else if id == Subscribe::ID {
            Some(WampErrorEvent::Subscribe)
        } else if id == Publish::ID {
            Some(WampErrorEvent::Publish)
        } else if id == Register::ID {
            Some(WampErrorEvent::Register)
        } else if id == Unregister::ID {
            Some(WampErrorEvent::Unregister)
        } else if id == Invocation::ID {
            Some(WampErrorEvent::Invocation)
        } else if id == Cancel::ID {
            Some(WampErrorEvent::Cancel)
        } else if id == Call::ID {
            Some(WampErrorEvent::Call)
        } else {
            None
        }
    }

    /// The kind of request that a message is. A message that carries no
    /// request fails with the message itself.
    pub fn try_from(value: Messages) -> (r: Result<WampErrorEvent, Error>)
        ensures
            match r {
                Ok(event) => Self::of_message(value@) == Some(event),
                Err(e) => Self::of_message(value@) is None && e@
                    == ErrorView::NoSuchWampErrorType(value@),
            },
    {
        let event = match value.id() {
            Some(id) => Self::from_id(id),
            None => None,
        };
        match event {
            Some(event) => Ok(event),
            None => Err(Error::NoSuchWampErrorType(value)),
        }
    }

    /// A kind and its tag stand for each other.
    pub proof fn lemma_id_round_trip(self)
        ensures
            Self::spec_from_id(self.spec_id()) == Some(self),
    {
    }
}

/// The failure of a request, which names the kind of request that it answers.
///
/// On the wire: `[8, event, request_id, details, error]`.
#[derive(Debug, PartialEq, Eq)]
pub struct WampError {
    pub event: WampErrorEvent,
    pub request_id: u64,
    pub details: Json,
    pub error: String,
}

/// The mathematical model of the message [`WampError`].
pub struct WampErrorView {
    pub event: WampErrorEvent,
    pub request_id: u64,
    pub details: JsonView,
    pub error: Seq<char>,
}

impl View for WampError {
    type V = WampErrorView;

    open spec fn view(&self) -> WampErrorView {
        WampErrorView {
            event: self.event,
            request_id: self.request_id,
            details: self.details@,
            error: self.error@,
        }
    }
}

impl Clone for WampError {
    fn clone(&self) -> (r: Self)
        ensures
            r@ == self@,
    {
        WampError {
            event: self.event,
            request_id: self.request_id,
            details: self.details.clone(),
            error: self.error.clone(),
        }
    }
}

impl WampError {
    /// The tag that leads the message on the wire.
    pub const ID: u64 = 8;
}

impl WampMessage for WampError {
    const ID: u64 = WampError::ID;

    open spec fn spec_direction(role: Roles) -> MessageDirection {
        match role {
            Roles::Callee => MessageDirection { receives: true, sends: true },
            Roles::Caller => MessageDirection { receives: true, sends: false },
            Roles::Publisher => MessageDirection { receives: true, sends: false },
            Roles::Subscriber => MessageDirection { receives: true, sends: false },
            Roles::Dealer => MessageDirection { receives: true, sends: true },
            Roles::Broker => MessageDirection { receives: false, sends: true },
        }
    }

    fn direction(role: Roles) -> (d: MessageDirection) {
        match role {
            Roles::Callee => MessageDirection { receives: true, sends: true },
            Roles::Caller => MessageDirection { receives: true, sends: false },
            Roles::Publisher => MessageDirection { receives: true, sends: false },
            Roles::Subscriber => MessageDirection { receives: true, sends: false },
            Roles::Dealer => MessageDirection { receives: true, sends: true },
            Roles::Broker => MessageDirection { receives: false, sends: true },
        }
    }

    open spec fn spec_encode(message: WampErrorView) -> Result<Seq<JsonView>, ErrorView> {
        if !message.details.is_object() {
            Err(ErrorView::InvalidField(Field::Details))
        } else {
            Ok(
                seq![
                    unsigned(Self::ID),
                    unsigned(message.event.spec_id()),
                    unsigned(message.request_id),
                    message.details,
                    JsonView::String(message.error),
                ],
            )
        }
    }

    open spec fn spec_decode(components: Seq<JsonView>) -> Result<WampErrorView, ErrorView> {
        if let Some(e) = check_id(components, Self::ID) {
            Err(e)
        } else if let Some(e) = check_event(components, 1) {
            Err(e)
        } else if let Some(e) = check_unsigned(components, 2, Field::RequestId) {
            Err(e)
        } else if let Some(e) = check_object(components, 3, Field::Details) {
            Err(e)
        } else if let Some(e) = check_string(components, 4, Field::ErrorUri) {
            Err(e)
        } else if let Some(e) = check_end(components, 5) {
            Err(e)
        } else {
            Ok(
                WampErrorView {
                    event: event_at(components, 1),
                    request_id: unsigned_at(components, 2),
                    details: components[3],
                    error: string_at(components, 4),
                },
            )
        }
    }

    open spec fn well_formed(message: WampErrorView) -> bool {
        message.details.is_object()
    }

    open spec fn canonical(message: WampErrorView) -> WampErrorView {
        message
    }

    proof fn lemma_round_trip(message: WampErrorView) {
        message.event.lemma_id_round_trip();
    }

    proof fn lemma_tag_mismatch(components: Seq<JsonView>) {
    }

    proof fn lemma_leading_tag(message: WampErrorView) {
    }

    proof fn lemma_writable(message: WampErrorView) {
    }

    fn encode(&self) -> (r: Result<Vec<Json>, Error>) {
        ser_value_is_object(&self.details, Field::Details)?;
        let mut out: Vec<Json> = Vec::new();
        out.push(Json::unsigned(Self::ID));
        out.push(Json::unsigned(self.event.id()));
        out.push(Json::unsigned(self.request_id));
        out.push(self.details.clone());
        out.push(Json::String(self.error.clone()));
        assert(out.deep_view() =~= seq![
            unsigned(Self::ID),
            unsigned(self.event.spec_id()),
            unsigned(self.request_id),
            self.details@,
            JsonView::String(self.error@),
        ]);
        Ok(out)
    }

    fn decode(components: &Vec<Json>) -> (r: Result<Self, Error>) {
        validate_id(components, Self::ID)?;
        let event = deser_event_element(components, 1)?;
        let request_id = deser_u64_element(components, 2, Field::RequestId)?;
        let details = deser_object_element(components, 3, Field::Details)?;
        let error = deser_string_element(components, 4, Field::ErrorUri)?;
        deser_end(components, 5)?;
        Ok(WampError { event, request_id, details, error })
    }
}

} // verus!
