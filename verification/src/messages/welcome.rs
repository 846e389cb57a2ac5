//! The acceptance of a session by the router.

use vstd::prelude::*;
use crate::error::{Error, ErrorView, Field};
use crate::roles::Roles;
use crate::value::{Json, JsonView};
use super::helpers::{
    check_end, check_id, check_object, check_unsigned, deser_end, deser_object_element,
    deser_u64_element, ser_value_is_object, unsigned, unsigned_at, validate_id,
};
use super::{MessageDirection, WampMessage};

verus! {

/// The acceptance of a session by the router.
///
/// On the wire: `[2, session, details]`.
#[derive(Debug, PartialEq, Eq)]
pub struct Welcome {
    pub session: u64,
    pub details: Json,
}

/// The mathematical model of the message [`Welcome`].
pub struct WelcomeView {
    pub session: u64,
    pub details: JsonView,
}

impl View for Welcome {
    type V = WelcomeView;

    open spec fn view(&self) -> WelcomeView {
        WelcomeView {
            session: self.session,
            details: self.details@,
        }
    }
}

impl Clone for Welcome {
    fn clone(&self) -> (r: Self)
        ensures
            r@ == self@,
    {
        Welcome {
            session: self.session,
            details: self.details.clone(),
        }
    }
}

impl Welcome {
    /// The tag that leads the message on the wire.
    pub const ID: u64 = 2;
}

impl WampMessage for Welcome {
    const ID: u64 = Welcome::ID;

    open spec fn spec_direction(role: Roles) -> MessageDirection {
        match role {
            Roles::Callee => MessageDirection { receives: true, sends: false },
            Roles::Caller => MessageDirection { receives: true, sends: false },
            Roles::Publisher => MessageDirection { receives: true, sends: false },
            Roles::Subscriber => MessageDirection { receives: true, sends: false },
            Roles::Dealer => MessageDirection { receives: false, sends: true },
            Roles::Broker => MessageDirection { receives: false, sends: true },
        }
    }

    fn direction(role: Roles) -> (d: MessageDirection) {
        match role {
            Roles::Callee => MessageDirection { receives: true, sends: false },
            Roles::Caller => MessageDirection { receives: true, sends: false },
            Roles::Publisher => MessageDirection { receives: true, sends: false },
            Roles::Subscriber => MessageDirection { receives: true, sends: false },
            Roles::Dealer => MessageDirection { receives: false, sends: true },
            Roles::Broker => MessageDirection { receives: false, sends: true },
        }
    }

    open spec fn spec_encode(message: WelcomeView) -> Result<Seq<JsonView>, ErrorView> {
        if !message.details.is_object() {
            Err(ErrorView::InvalidField(Field::Details))
        } else {
            Ok(seq![unsigned(Self::ID), unsigned(message.session), message.details])
        }
    }

    open spec fn spec_decode(components: Seq<JsonView>) -> Result<WelcomeView, ErrorView> {
        if let Some(e) = check_id(components, Self::ID) {
            Err(e)
        } else if let Some(e) = check_unsigned(components, 1, Field::Session) {
            Err(e)
        } else if let Some(e) = check_object(components, 2, Field::Details) {
            Err(e)
        } else if let Some(e) = check_end(components, 3) {
            Err(e)
        } else {
            Ok(WelcomeView { session: unsigned_at(components, 1), details: components[2] })
        }
    }

    open spec fn well_formed(message: WelcomeView) -> bool {
        &&& message.details.is_object()
    }

    open spec fn canonical(message: WelcomeView) -> WelcomeView {
        message
    }

    proof fn lemma_round_trip(message: WelcomeView) {
    }

    proof fn lemma_tag_mismatch(components: Seq<JsonView>) {
    }

    proof fn lemma_leading_tag(message: WelcomeView) {
    }

    proof fn lemma_writable(message: WelcomeView) {
    }

    fn encode(&self) -> (r: Result<Vec<Json>, Error>) {
        ser_value_is_object(&self.details, Field::Details)?;
        let mut out: Vec<Json> = Vec::new();
        out.push(Json::unsigned(Self::ID));
        out.push(Json::unsigned(self.session));
        out.push(self.details.clone());
        assert(out.deep_view() =~= seq![
            unsigned(Self::ID),
            unsigned(self.session),
            self.details@,
        ]);
        Ok(out)
    }

    fn decode(components: &Vec<Json>) -> (r: Result<Self, Error>) {
        validate_id(components, Self::ID)?;
        let session = deser_u64_element(components, 1, Field::Session)?;
        let details = deser_object_element(components, 2, Field::Details)?;
        deser_end(components, 3)?;
        Ok(Welcome { session, details })
    }
}

} // verus!
