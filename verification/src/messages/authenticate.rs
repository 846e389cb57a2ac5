//! The answer of the client to a challenge.

use vstd::prelude::*;
use crate::error::{Error, ErrorView, Field};
use crate::roles::Roles;
use crate::value::{Json, JsonView};
use super::helpers::{
    check_end, check_id, check_object, check_string, deser_end, deser_object_element,
    deser_string_element, ser_value_is_object, string_at, unsigned, validate_id,
};
use super::{MessageDirection, WampMessage};

verus! {

/// The answer of the client to a challenge.
///
/// On the wire: `[5, signature, details]`.
#[derive(Debug, PartialEq, Eq)]
pub struct Authenticate {
    pub signature: String,
    pub details: Json,
}

/// The mathematical model of the message [`Authenticate`].
pub struct AuthenticateView {
    pub signature: Seq<char>,
    pub details: JsonView,
}

impl View for Authenticate {
    type V = AuthenticateView;

    open spec fn view(&self) -> AuthenticateView {
        AuthenticateView {
            signature: self.signature@,
            details: self.details@,
        }
    }
}

impl Clone for Authenticate {
    fn clone(&self) -> (r: Self)
        ensures
            r@ == self@,
    {
        Authenticate {
            signature: self.signature.clone(),
            details: self.details.clone(),
        }
    }
}

impl Authenticate {
    /// The tag that leads the message on the wire.
    pub const ID: u64 = 5;
}

impl WampMessage for Authenticate {
    const ID: u64 = Authenticate::ID;

    open spec fn spec_direction(role: Roles) -> MessageDirection {
        match role {
            Roles::Callee => MessageDirection { receives: false, sends: true },
            Roles::Caller => MessageDirection { receives: false, sends: true },
            Roles::Publisher => MessageDirection { receives: false, sends: true },
            Roles::Subscriber => MessageDirection { receives: false, sends: true },
            Roles::Dealer => MessageDirection { receives: true, sends: false },
            Roles::Broker => MessageDirection { receives: true, sends: false },
        }
    }

    fn direction(role: Roles) -> (d: MessageDirection) {
        match role {
            Roles::Callee => MessageDirection { receives: false, sends: true },
            Roles::Caller => MessageDirection { receives: false, sends: true },
            Roles::Publisher => MessageDirection { receives: false, sends: true },
            Roles::Subscriber => MessageDirection { receives: false, sends: true },
            Roles::Dealer => MessageDirection { receives: true, sends: false },
            Roles::Broker => MessageDirection { receives: true, sends: false },
        }
    }

    open spec fn spec_encode(message: AuthenticateView) -> Result<Seq<JsonView>, ErrorView> {
        if !message.details.is_object() {
            Err(ErrorView::InvalidField(Field::Details))
        } else {
            Ok(seq![unsigned(Self::ID), JsonView::String(message.signature), message.details])
        }
    }

    open spec fn spec_decode(components: Seq<JsonView>) -> Result<AuthenticateView, ErrorView> {
        if let Some(e) = check_id(components, Self::ID) {
            Err(e)
        } else if let Some(e) = check_string(components, 1, Field::Signature) {
            Err(e)
        } else if let Some(e) = check_object(components, 2, Field::Details) {
            Err(e)
        } else if let Some(e) = check_end(components, 3) {
            Err(e)
        } else {
            Ok(AuthenticateView { signature: string_at(components, 1), details: components[2] })
        }
    }

    open spec fn well_formed(message: AuthenticateView) -> bool {
        &&& message.details.is_object()
    }

    open spec fn canonical(message: AuthenticateView) -> AuthenticateView {
        message
    }

    proof fn lemma_round_trip(message: AuthenticateView) {
    }

    proof fn lemma_tag_mismatch(components: Seq<JsonView>) {
    }

    proof fn lemma_leading_tag(message: AuthenticateView) {
    }

    proof fn lemma_writable(message: AuthenticateView) {
    }

    fn encode(&self) -> (r: Result<Vec<Json>, Error>) {
        ser_value_is_object(&self.details, Field::Details)?;
        let mut out: Vec<Json> = Vec::new();
        out.push(Json::unsigned(Self::ID));
        out.push(Json::String(self.signature.clone()));
        out.push(self.details.clone());
        assert(out.deep_view() =~= seq![
            unsigned(Self::ID),
            JsonView::String(self.signature@),
            self.details@,
        ]);
        Ok(out)
    }

    fn decode(components: &Vec<Json>) -> (r: Result<Self, Error>) {
        validate_id(components, Self::ID)?;
        let signature = deser_string_element(components, 1, Field::Signature)?;
        let details = deser_object_element(components, 2, Field::Details)?;
        deser_end(components, 3)?;
        Ok(Authenticate { signature, details })
    }
}

} // verus!
