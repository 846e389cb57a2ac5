//! The message catalogue, and the envelope that holds a message of any type.
//!
//! Every message stands on the wire as a sequence that starts with the tag of
//! its type. [`WampMessage`] is what the codecs of all types have in common;
//! [`Messages`] reads a sequence as the type that its tag names.

use vstd::prelude::*;
use crate::error::{Error, ErrorView};
use crate::json::{parse_sequence, parsed, parsed_sequence, print_sequence, printed_sequence};
use crate::roles::Roles;
use crate::value::{clone_sequence, Json, JsonView};

pub mod abort;
pub mod authenticate;
pub mod call;
pub mod cancel;
pub mod challenge;
pub mod error;
pub mod event;
pub mod goodbye;
pub mod hello;
pub mod helpers;
pub mod interrupt;
pub mod invocation;
pub mod publish;
pub mod published;
pub mod register;
pub mod registered;
pub mod result;
pub mod subscribe;
pub mod subscribed;
pub mod unregister;
pub mod unregistered;
pub mod unsubscribe;
pub mod unsubscribed;
pub mod welcome;
pub mod yielded;

pub use abort::{Abort, AbortView};
pub use authenticate::{Authenticate, AuthenticateView};
pub use call::{Call, CallView};
pub use cancel::{Cancel, CancelView};
pub use challenge::{Challenge, ChallengeView};
pub use error::{WampError, WampErrorEvent, WampErrorView};
pub use event::{Event, EventView};
pub use goodbye::{Goodbye, GoodbyeView};
pub use hello::{Hello, HelloView};
pub use interrupt::{Interrupt, InterruptView};
pub use invocation::{Invocation, InvocationView};
pub use publish::{Publish, PublishView};
pub use published::Published;
pub use register::{Register, RegisterView};
pub use registered::Registered;
pub use result::{WampResult, WampResultView};
pub use subscribe::{Subscribe, SubscribeView};
pub use subscribed::Subscribed;
pub use unregister::Unregister;
pub use unregistered::Unregistered;
pub use unsubscribe::Unsubscribe;
pub use unsubscribed::Unsubscribed;
pub use welcome::{Welcome, WelcomeView};
pub use yielded::{Yield, YieldView};

verus! {

/// Whether a role may receive and may send a message type.
#[derive(Clone, Copy, Debug, PartialEq, Eq, Structural)]
pub struct MessageDirection {
    pub receives: bool,
    pub sends: bool,
}

/// The model of what a decoder returns.
pub open spec fn decoded<T: View>(r: Result<T, Error>) -> Result<T::V, ErrorView> {
    match r {
        Ok(message) => Ok(message@),
        Err(e) => Err(e@),
    }
}

/// The model of what an encoder returns.
pub open spec fn encoded(r: Result<Vec<Json>, Error>) -> Result<Seq<JsonView>, ErrorView> {
    match r {
        Ok(components) => Ok(components.deep_view()),
        Err(e) => Err(e@),
    }
}

/// A message type of the catalogue.
pub trait WampMessage: View + Sized {
    /// The tag that leads the message on the wire.
    const ID: u64;

    /// What `direction` returns.
    spec fn spec_direction(role: Roles) -> MessageDirection;

    /// Whether `role` may receive and may send this message type.
    fn direction(role: Roles) -> (d: MessageDirection)
        ensures
            d == Self::spec_direction(role),
    ;

    /// The sequence that stands for a message on the wire, or the reason why
    /// the message has none.
    spec fn spec_encode(message: Self::V) -> Result<Seq<JsonView>, ErrorView>;

    /// The message that a sequence stands for, or the reason why it stands for
    /// none.
    spec fn spec_decode(components: Seq<JsonView>) -> Result<Self::V, ErrorView>;

    /// The payload fields of the message have the shapes that its layout asks
    /// for: options and details are objects, positional arguments are an array
    /// or null, keyword arguments are an object or null.
    spec fn well_formed(message: Self::V) -> bool;

    /// The message as a reader of its sequence sees it: the message itself,
    /// but with the empty array for positional arguments that are null beside
    /// keyword arguments that are not.
    spec fn canonical(message: Self::V) -> Self::V;

    /// Every well-formed message can be written, and reading what was written
    /// gives the canonical form of the message.
    proof fn lemma_round_trip(message: Self::V)
        requires
            Self::well_formed(message),
        ensures
            Self::spec_encode(message) is Ok,
            Self::spec_decode(Self::spec_encode(message)->Ok_0) == Ok::<Self::V, ErrorView>(
                Self::canonical(message),
            ),
    ;

    /// A sequence that does not start with the tag of this message type is not
    /// read as a message of this type.
    proof fn lemma_tag_mismatch(components: Seq<JsonView>)
        requires
            components.len() == 0 || components[0] != helpers::unsigned(Self::ID),
        ensures
            Self::spec_decode(components) is Err,
    ;

    /// The messages that can be written are the well-formed ones.
    proof fn lemma_writable(message: Self::V)
        ensures
            Self::spec_encode(message) is Ok <==> Self::well_formed(message),
    ;

    /// The sequence of a message starts with the tag of its type.
    proof fn lemma_leading_tag(message: Self::V)
        requires
            Self::spec_encode(message) is Ok,
        ensures
            Self::spec_encode(message)->Ok_0.len() > 0,
            Self::spec_encode(message)->Ok_0[0] == helpers::unsigned(Self::ID),
    ;

    /// Writes the message as a sequence.
    fn encode(&self) -> (r: Result<Vec<Json>, Error>)
        ensures
            encoded(r) == Self::spec_encode(self@),
    ;

    /// Reads a message from a sequence.
    fn decode(components: &Vec<Json>) -> (r: Result<Self, Error>)
        ensures
            decoded(r) == Self::spec_decode(components.deep_view()),
    ;
}

/// Reading what was written gives the message back, for every well-formed
/// message that is its own canonical form: one that has positional arguments,
/// or no keyword arguments.
pub proof fn lemma_round_trip_identity<M: WampMessage>(message: M::V)
    requires
        M::well_formed(message),
        M::canonical(message) == message,
    ensures
        M::spec_encode(message) is Ok,
        M::spec_decode(M::spec_encode(message)->Ok_0) == Ok::<M::V, ErrorView>(message),
{
    M::lemma_round_trip(message);
}

/// The text of the frame of a message, where the message can be written and
/// its sequence has a text.
pub open spec fn frame(encoded: Result<Seq<JsonView>, ErrorView>) -> Option<Seq<char>> {
    match encoded {
        Ok(components) => printed_sequence(components),
        Err(_) => None,
    }
}

/// The error of a message that has no frame: that of its encoder, or else
/// that of the writer of the text.
pub open spec fn rejection(encoded: Result<Seq<JsonView>, ErrorView>, error: ErrorView) -> bool {
    match encoded {
        Err(e) => error == e,
        Ok(_) => error is SerdeJsonError,
    }
}

/// The error of a text that holds no sequence: that of a text that is no
/// JSON text, or that of a text that holds another value than an array.
pub open spec fn unreadable(text: Seq<char>, error: ErrorView) -> bool {
    match parsed(text) {
        None => error is SerdeJsonError,
        Some(_) => error == ErrorView::NotASequence,
    }
}

/// Writes a message as the text of a frame.
pub fn to_string<M: WampMessage>(message: &M) -> (r: Result<String, Error>)
    ensures
        match frame(M::spec_encode(message@)) {
            Some(text) => r matches Ok(written) && written@ == text,
            None => r matches Err(error) && rejection(M::spec_encode(message@), error@),
        },
{
    print_sequence(message.encode()?)
}

/// Reads a message from the text of a frame.
pub fn from_str<M: WampMessage>(text: &str) -> (r: Result<M, Error>)
    ensures
        match parsed_sequence(text@) {
            Some(components) => decoded(r) == M::spec_decode(components),
            None => r matches Err(error) && unreadable(text@, error@),
        },
{
    M::decode(&parse_sequence(text)?)
}

/// A message of any type. A sequence with a tag that names no type of the
/// catalogue is kept as it came, as an extension.
#[derive(Debug, PartialEq, Eq)]
pub enum Messages {
    Abort(Abort),
    Authenticate(Authenticate),
    Call(Call),
    Cancel(Cancel),
    Challenge(Challenge),
    Error(WampError),
    Event(Event),
    Goodbye(Goodbye),
    Hello(Hello),
    Interrupt(Interrupt),
    Invocation(Invocation),
    Publish(Publish),
    Published(Published),
    Register(Register),
    Registered(Registered),
    Result(WampResult),
    Subscribe(Subscribe),
    Subscribed(Subscribed),
    Unregister(Unregister),
    Unregistered(Unregistered),
    Unsubscribe(Unsubscribe),
    Unsubscribed(Unsubscribed),
    Welcome(Welcome),
    Yield(Yield),
    Extension(Vec<Json>),
}

/// The mathematical model of [`Messages`].
pub enum MessagesView {
    Abort(AbortView),
    Authenticate(AuthenticateView),
    Call(CallView),
    Cancel(CancelView),
    Challenge(ChallengeView),
    Error(WampErrorView),
    Event(EventView),
    Goodbye(GoodbyeView),
    Hello(HelloView),
    Interrupt(InterruptView),
    Invocation(InvocationView),
    Publish(PublishView),
    Published(Published),
    Register(RegisterView),
    Registered(Registered),
    Result(WampResultView),
    Subscribe(SubscribeView),
    Subscribed(Subscribed),
    Unregister(Unregister),
    Unregistered(Unregistered),
    Unsubscribe(Unsubscribe),
    Unsubscribed(Unsubscribed),
    Welcome(WelcomeView),
    Yield(YieldView),
    Extension(Seq<JsonView>),
}

impl View for Messages {
    type V = MessagesView;

    open spec fn view(&self) -> MessagesView {
        match self {
            Messages::Abort(message) => MessagesView::Abort(message@),
            Messages::Authenticate(message) => MessagesView::Authenticate(message@),
            Messages::Call(message) => MessagesView::Call(message@),
            Messages::Cancel(message) => MessagesView::Cancel(message@),
            Messages::Challenge(message) => MessagesView::Challenge(message@),
            Messages::Error(message) => MessagesView::Error(message@),
            Messages::Event(message) => MessagesView::Event(message@),
            Messages::Goodbye(message) => MessagesView::Goodbye(message@),
            Messages::Hello(message) => MessagesView::Hello(message@),
            Messages::Interrupt(message) => MessagesView::Interrupt(message@),
            Messages::Invocation(message) => MessagesView::Invocation(message@),
            Messages::Publish(message) => MessagesView::Publish(message@),
            Messages::Published(message) => MessagesView::Published(message@),
            Messages::Register(message) => MessagesView::Register(message@),
            Messages::Registered(message) => MessagesView::Registered(message@),
            Messages::Result(message) => MessagesView::Result(message@),
            Messages::Subscribe(message) => MessagesView::Subscribe(message@),
            Messages::Subscribed(message) => MessagesView::Subscribed(message@),
            Messages::Unregister(message) => MessagesView::Unregister(message@),
            Messages::Unregistered(message) => MessagesView::Unregistered(message@),
            Messages::Unsubscribe(message) => MessagesView::Unsubscribe(message@),
            Messages::Unsubscribed(message) => MessagesView::Unsubscribed(message@),
            Messages::Welcome(message) => MessagesView::Welcome(message@),
            Messages::Yield(message) => MessagesView::Yield(message@),
            Messages::Extension(components) => MessagesView::Extension(components.deep_view()),
        }
    }
}

impl Clone for Messages {
    fn clone(&self) -> (r: Self)
        ensures
            r@ == self@,
    {
        match self {
            Messages::Abort(message) => Messages::Abort(message.clone()),
            Messages::Authenticate(message) => Messages::Authenticate(message.clone()),
            Messages::Call(message) => Messages::Call(message.clone()),
            Messages::Cancel(message) => Messages::Cancel(message.clone()),
            Messages::Challenge(message) => Messages::Challenge(message.clone()),
            Messages::Error(message) => Messages::Error(message.clone()),
            Messages::Event(message) => Messages::Event(message.clone()),
            Messages::Goodbye(message) => Messages::Goodbye(message.clone()),
            Messages::Hello(message) => Messages::Hello(message.clone()),
            Messages::Interrupt(message) => Messages::Interrupt(message.clone()),
            Messages::Invocation(message) => Messages::Invocation(message.clone()),
            Messages::Publish(message) => Messages::Publish(message.clone()),
            Messages::Published(message) => Messages::Published(*message),
            Messages::Register(message) => Messages::Register(message.clone()),
            Messages::Registered(message) => Messages::Registered(*message),
            Messages::Result(message) => Messages::Result(message.clone()),
            Messages::Subscribe(message) => Messages::Subscribe(message.clone()),
            Messages::Subscribed(message) => Messages::Subscribed(*message),
            Messages::Unregister(message) => Messages::Unregister(*message),
            Messages::Unregistered(message) => Messages::Unregistered(*message),
            Messages::Unsubscribe(message) => Messages::Unsubscribe(*message),
            Messages::Unsubscribed(message) => Messages::Unsubscribed(*message),
            Messages::Welcome(message) => Messages::Welcome(message.clone()),
            Messages::Yield(message) => Messages::Yield(message.clone()),
            Messages::Extension(components) => Messages::Extension(clone_sequence(components)),
        }
    }
}

/// The result of a decoder, held in the envelope.
pub open spec fn lifted<V>(r: Result<V, ErrorView>, wrap: spec_fn(V) -> MessagesView) -> Result<
    MessagesView,
    ErrorView,
> {
    match r {
        Ok(message) => Ok(wrap(message)),
        Err(e) => Err(e),
    }
}

/// The tag names a message type of the catalogue.
pub open spec fn is_catalogue_tag(tag: u64) -> bool {
    ||| tag == Abort::ID
    ||| tag == Authenticate::ID
    ||| tag == Call::ID
    ||| tag == Cancel::ID
    ||| tag == Challenge::ID
    ||| tag == WampError::ID
    ||| tag == Event::ID
    ||| tag == Goodbye::ID
    ||| tag == Hello::ID
    ||| tag == Interrupt::ID
    ||| tag == Invocation::ID
    ||| tag == Publish::ID
    ||| tag == Published::ID
    ||| tag == Register::ID
    ||| tag == Registered::ID
    ||| tag == WampResult::ID
    ||| tag == Subscribe::ID
    ||| tag == Subscribed::ID
    ||| tag == Unregister::ID
    ||| tag == Unregistered::ID
    ||| tag == Unsubscribe::ID
    ||| tag == Unsubscribed::ID
    ||| tag == Welcome::ID
    ||| tag == Yield::ID
}

impl MessagesView {
    /// The tag that leads the message on the wire, if it has one.
    pub open spec fn id(self) -> Option<u64> {
        match self {
            MessagesView::Abort(_) => Some(Abort::ID),
            MessagesView::Authenticate(_) => Some(Authenticate::ID),
            MessagesView::Call(_) => Some(Call::ID),
            MessagesView::Cancel(_) => Some(Cancel::ID),
            MessagesView::Challenge(_) => Some(Challenge::ID),
            MessagesView::Error(_) => Some(WampError::ID),
            MessagesView::Event(_) => Some(Event::ID),
            MessagesView::Goodbye(_) => Some(Goodbye::ID),
            MessagesView::Hello(_) => Some(Hello::ID),
            MessagesView::Interrupt(_) => Some(Interrupt::ID),
            MessagesView::Invocation(_) => Some(Invocation::ID),
            MessagesView::Publish(_) => Some(Publish::ID),
            MessagesView::Published(_) => Some(Published::ID),
            MessagesView::Register(_) => Some(Register::ID),
            MessagesView::Registered(_) => Some(Registered::ID),
            MessagesView::Result(_) => Some(WampResult::ID),
            MessagesView::Subscribe(_) => Some(Subscribe::ID),
            MessagesView::Subscribed(_) => Some(Subscribed::ID),
            MessagesView::Unregister(_) => Some(Unregister::ID),
            MessagesView::Unregistered(_) => Some(Unregistered::ID),
            MessagesView::Unsubscribe(_) => Some(Unsubscribe::ID),
            MessagesView::Unsubscribed(_) => Some(Unsubscribed::ID),
            MessagesView::Welcome(_) => Some(Welcome::ID),
            MessagesView::Yield(_) => Some(Yield::ID),
            MessagesView::Extension(components) => if components.len() > 0 {
                components[0].as_u64()
            } else {
                None
            },
        }
    }

    /// The message can be written and read back: it is a well-formed message
    /// of the catalogue, or an extension with a tag that names no type of the
    /// catalogue.
    pub open spec fn well_formed(self) -> bool {
        match self {
            MessagesView::Abort(message) => Abort::well_formed(message),
            MessagesView::Authenticate(message) => Authenticate::well_formed(message),
            MessagesView::Call(message) => Call::well_formed(message),
            MessagesView::Cancel(message) => Cancel::well_formed(message),
            MessagesView::Challenge(message) => Challenge::well_formed(message),
            MessagesView::Error(message) => WampError::well_formed(message),
            MessagesView::Event(message) => Event::well_formed(message),
            MessagesView::Goodbye(message) => Goodbye::well_formed(message),
            MessagesView::Hello(message) => Hello::well_formed(message),
            MessagesView::Interrupt(message) => Interrupt::well_formed(message),
            MessagesView::Invocation(message) => Invocation::well_formed(message),
            MessagesView::Publish(message) => Publish::well_formed(message),
            MessagesView::Published(message) => Published::well_formed(message),
            MessagesView::Register(message) => Register::well_formed(message),
            MessagesView::Registered(message) => Registered::well_formed(message),
            MessagesView::Result(message) => WampResult::well_formed(message),
            MessagesView::Subscribe(message) => Subscribe::well_formed(message),
            MessagesView::Subscribed(message) => Subscribed::well_formed(message),
            MessagesView::Unregister(message) => Unregister::well_formed(message),
            MessagesView::Unregistered(message) => Unregistered::well_formed(message),
            MessagesView::Unsubscribe(message) => Unsubscribe::well_formed(message),
            MessagesView::Unsubscribed(message) => Unsubscribed::well_formed(message),
            MessagesView::Welcome(message) => Welcome::well_formed(message),
            MessagesView::Yield(message) => Yield::well_formed(message),
            MessagesView::Extension(components) => self.id() matches Some(tag) && !is_catalogue_tag(
                tag,
            ),
        }
    }

    /// The message as a reader of its sequence sees it.
    pub open spec fn canonical(self) -> MessagesView {
        match self {
            MessagesView::Abort(m) => MessagesView::Abort(Abort::canonical(m)),
            MessagesView::Authenticate(m) => MessagesView::Authenticate(Authenticate::canonical(m)),
            MessagesView::Call(m) => MessagesView::Call(Call::canonical(m)),
            MessagesView::Cancel(m) => MessagesView::Cancel(Cancel::canonical(m)),
            MessagesView::Challenge(m) => MessagesView::Challenge(Challenge::canonical(m)),
            MessagesView::Error(m) => MessagesView::Error(WampError::canonical(m)),
            MessagesView::Event(m) => MessagesView::Event(Event::canonical(m)),
            MessagesView::Goodbye(m) => MessagesView::Goodbye(Goodbye::canonical(m)),
            MessagesView::Hello(m) => MessagesView::Hello(Hello::canonical(m)),
            MessagesView::Interrupt(m) => MessagesView::Interrupt(Interrupt::canonical(m)),
            MessagesView::Invocation(m) => MessagesView::Invocation(Invocation::canonical(m)),
            MessagesView::Publish(m) => MessagesView::Publish(Publish::canonical(m)),
            MessagesView::Published(m) => MessagesView::Published(Published::canonical(m)),
            MessagesView::Register(m) => MessagesView::Register(Register::canonical(m)),
            MessagesView::Registered(m) => MessagesView::Registered(Registered::canonical(m)),
            MessagesView::Result(m) => MessagesView::Result(WampResult::canonical(m)),
            MessagesView::Subscribe(m) => MessagesView::Subscribe(Subscribe::canonical(m)),
            MessagesView::Subscribed(m) => MessagesView::Subscribed(Subscribed::canonical(m)),
            MessagesView::Unregister(m) => MessagesView::Unregister(Unregister::canonical(m)),
            MessagesView::Unregistered(m) => MessagesView::Unregistered(Unregistered::canonical(m)),
            MessagesView::Unsubscribe(m) => MessagesView::Unsubscribe(Unsubscribe::canonical(m)),
            MessagesView::Unsubscribed(m) => MessagesView::Unsubscribed(Unsubscribed::canonical(m)),
            MessagesView::Welcome(m) => MessagesView::Welcome(Welcome::canonical(m)),
            MessagesView::Yield(m) => MessagesView::Yield(Yield::canonical(m)),
            MessagesView::Extension(components) => self,
        }
    }
}

impl Messages {
    /// The sequence that stands for a message on the wire: that of its type,
    /// and for an extension the sequence that it holds.
    pub open spec fn spec_encode(message: MessagesView) -> Result<Seq<JsonView>, ErrorView> {
        match message {
            MessagesView::Abort(message) => Abort::spec_encode(message),
            MessagesView::Authenticate(message) => Authenticate::spec_encode(message),
            MessagesView::Call(message) => Call::spec_encode(message),
            MessagesView::Cancel(message) => Cancel::spec_encode(message),
            MessagesView::Challenge(message) => Challenge::spec_encode(message),
            MessagesView::Error(message) => WampError::spec_encode(message),
            MessagesView::Event(message) => Event::spec_encode(message),
            MessagesView::Goodbye(message) => Goodbye::spec_encode(message),
            MessagesView::Hello(message) => Hello::spec_encode(message),
            MessagesView::Interrupt(message) => Interrupt::spec_encode(message),
            MessagesView::Invocation(message) => Invocation::spec_encode(message),
            MessagesView::Publish(message) => Publish::spec_encode(message),
            MessagesView::Published(message) => Published::spec_encode(message),
            MessagesView::Register(message) => Register::spec_encode(message),
            MessagesView::Registered(message) => Registered::spec_encode(message),
            MessagesView::Result(message) => WampResult::spec_encode(message),
            MessagesView::Subscribe(message) => Subscribe::spec_encode(message),
            MessagesView::Subscribed(message) => Subscribed::spec_encode(message),
            MessagesView::Unregister(message) => Unregister::spec_encode(message),
            MessagesView::Unregistered(message) => Unregistered::spec_encode(message),
            MessagesView::Unsubscribe(message) => Unsubscribe::spec_encode(message),
            MessagesView::Unsubscribed(message) => Unsubscribed::spec_encode(message),
            MessagesView::Welcome(message) => Welcome::spec_encode(message),
            MessagesView::Yield(message) => Yield::spec_encode(message),
            MessagesView::Extension(components) => Ok(components),
        }
    }

    /// The message that a sequence stands for. The leading element has to be
    /// an unsigned tag. Where the tag names a type of the catalogue, the
    /// sequence is read as that type; any other tag gives an extension that
    /// holds the sequence.
    pub open spec fn spec_decode(components: Seq<JsonView>) -> Result<MessagesView, ErrorView> {
        if components.len() == 0 {
            Err(ErrorView::InvalidMessageEnumMember)
        } else {
            match components[0].as_u64() {
                None => Err(ErrorView::InvalidMessageEnumMember),
                Some(tag) => Self::spec_dispatch(tag, components),
            }
        }
    }

    /// The decoder that a tag selects, applied to a sequence.
    pub open spec fn spec_dispatch(tag: u64, components: Seq<JsonView>) -> Result<
        MessagesView,
        ErrorView,
    > {
        if tag == Abort::ID {
            lifted(Abort::spec_decode(components), |m| MessagesView::Abort(m))
        } else if tag == Authenticate::ID {
            lifted(Authenticate::spec_decode(components), |m| MessagesView::Authenticate(m))
        } else if tag == Call::ID {
            lifted(Call::spec_decode(components), |m| MessagesView::Call(m))
        } else if tag == Cancel::ID {
            lifted(Cancel::spec_decode(components), |m| MessagesView::Cancel(m))
        } else if tag == Challenge::ID {
            lifted(Challenge::spec_decode(components), |m| MessagesView::Challenge(m))
        } else if tag == WampError::ID {
            lifted(WampError::spec_decode(components), |m| MessagesView::Error(m))
        } else if tag == Event::ID {
            lifted(Event::spec_decode(components), |m| MessagesView::Event(m))
        } else if tag == Goodbye::ID {
            lifted(Goodbye::spec_decode(components), |m| MessagesView::Goodbye(m))
        } else if tag == Hello::ID {
            lifted(Hello::spec_decode(components), |m| MessagesView::Hello(m))
        } else if tag == Interrupt::ID {
            lifted(Interrupt::spec_decode(components), |m| MessagesView::Interrupt(m))
        } else if tag == Invocation::ID {
            lifted(Invocation::spec_decode(components), |m| MessagesView::Invocation(m))
        } else if tag == Publish::ID {
            lifted(Publish::spec_decode(components), |m| MessagesView::Publish(m))
        } else if tag == Published::ID {
            lifted(Published::spec_decode(components), |m| MessagesView::Published(m))
        } else if tag == Register::ID {
            lifted(Register::spec_decode(components), |m| MessagesView::Register(m))
        } else if tag == Registered::ID {
            lifted(Registered::spec_decode(components), |m| MessagesView::Registered(m))
        } else if tag == WampResult::ID {
            lifted(WampResult::spec_decode(components), |m| MessagesView::Result(m))
        } else if tag == Subscribe::ID {
            lifted(Subscribe::spec_decode(components), |m| MessagesView::Subscribe(m))
        } else if tag == Subscribed::ID {
            lifted(Subscribed::spec_decode(components), |m| MessagesView::Subscribed(m))
        } else if tag == Unregister::ID {
            lifted(Unregister::spec_decode(components), |m| MessagesView::Unregister(m))
        } else if tag == Unregistered::ID {
            lifted(Unregistered::spec_decode(components), |m| MessagesView::Unregistered(m))
        } else if tag == Unsubscribe::ID {
            lifted(Unsubscribe::spec_decode(components), |m| MessagesView::Unsubscribe(m))
        } else if tag == Unsubscribed::ID {
            lifted(Unsubscribed::spec_decode(components), |m| MessagesView::Unsubscribed(m))
        } else if tag == Welcome::ID {
            lifted(Welcome::spec_decode(components), |m| MessagesView::Welcome(m))
        } else if tag == Yield::ID {
            lifted(Yield::spec_decode(components), |m| MessagesView::Yield(m))
        } else {
            Ok(MessagesView::Extension(components))
        }
    }

    /// The tag that leads the message on the wire, if it has one.
    pub fn id(&self) -> (r: Option<u64>)
        ensures
            r == self@.id(),
    {
        match self {
            Messages::Abort(_) => Some(Abort::ID),
            Messages::Authenticate(_) => Some(Authenticate::ID),
            Messages::Call(_) => Some(Call::ID),
            Messages::Cancel(_) => Some(Cancel::ID),
            Messages::Challenge(_) => Some(Challenge::ID),
            Messages::Error(_) => Some(WampError::ID),
            Messages::Event(_) => Some(Event::ID),
            Messages::Goodbye(_) => Some(Goodbye::ID),
            Messages::Hello(_) => Some(Hello::ID),
            Messages::Interrupt(_) => Some(Interrupt::ID),
            Messages::Invocation(_) => Some(Invocation::ID),
            Messages::Publish(_) => Some(Publish::ID),
            Messages::Published(_) => Some(Published::ID),
            Messages::Register(_) => Some(Register::ID),
            Messages::Registered(_) => Some(Registered::ID),
            Messages::Result(_) => Some(WampResult::ID),
            Messages::Subscribe(_) => Some(Subscribe::ID),
            Messages::Subscribed(_) => Some(Subscribed::ID),
            Messages::Unregister(_) => Some(Unregister::ID),
            Messages::Unregistered(_) => Some(Unregistered::ID),
            Messages::Unsubscribe(_) => Some(Unsubscribe::ID),
            Messages::Unsubscribed(_) => Some(Unsubscribed::ID),
            Messages::Welcome(_) => Some(Welcome::ID),
            Messages::Yield(_) => Some(Yield::ID),
            Messages::Extension(components) => if components.len() > 0 {
                components[0].as_u64()
            } else {
                None
            },
        }
    }

    /// Writes the message as a sequence.
    pub fn encode(&self) -> (r: Result<Vec<Json>, Error>)
        ensures
            encoded(r) == Self::spec_encode(self@),
    {
        match self {
            Messages::Abort(message) => message.encode(),
            Messages::Authenticate(message) => message.encode(),
            Messages::Call(message) => message.encode(),
            Messages::Cancel(message) => message.encode(),
            Messages::Challenge(message) => message.encode(),
            Messages::Error(message) => message.encode(),
            Messages::Event(message) => message.encode(),
            Messages::Goodbye(message) => message.encode(),
            Messages::Hello(message) => message.encode(),
            Messages::Interrupt(message) => message.encode(),
            Messages::Invocation(message) => message.encode(),
            Messages::Publish(message) => message.encode(),
            Messages::Published(message) => message.encode(),
            Messages::Register(message) => message.encode(),
            Messages::Registered(message) => message.encode(),
            Messages::Result(message) => message.encode(),
            Messages::Subscribe(message) => message.encode(),
            Messages::Subscribed(message) => message.encode(),
            Messages::Unregister(message) => message.encode(),
            Messages::Unregistered(message) => message.encode(),
            Messages::Unsubscribe(message) => message.encode(),
            Messages::Unsubscribed(message) => message.encode(),
            Messages::Welcome(message) => message.encode(),
            Messages::Yield(message) => message.encode(),
            Messages::Extension(components) => Ok(clone_sequence(components)),
        }
    }

    /// Reads a message from a sequence, as the type that its tag names.
    pub fn decode(components: &Vec<Json>) -> (r: Result<Messages, Error>)
        ensures
            decoded(r) == Self::spec_decode(components.deep_view()),
    {
        if components.len() == 0 {
            return Err(Error::InvalidMessageEnumMember);
        }
        let tag = match components[0].as_u64() {
            Some(tag) => tag,
            None => {
                return Err(Error::InvalidMessageEnumMember);
            },
        };
        if tag == Abort::ID {
            match Abort::decode(components) {
                Ok(message) => Ok(Messages::Abort(message)),
                Err(e) => Err(e),
            }
        } else if tag == Authenticate::ID {
            match Authenticate::decode(components) {
                Ok(message) => Ok(Messages::Authenticate(message)),
                Err(e) => Err(e),
            }
        } else if tag == Call::ID {
            match Call::decode(components) {
                Ok(message) => Ok(Messages::Call(message)),
                Err(e) => Err(e),
            }
        } else if tag == Cancel::ID {
            match Cancel::decode(components) {
                Ok(message) => Ok(Messages::Cancel(message)),
                Err(e) => Err(e),
            }
        } else if tag == Challenge::ID {
            match Challenge::decode(components) {
                Ok(message) => Ok(Messages::Challenge(message)),
                Err(e) => Err(e),
            }
        } else if tag == WampError::ID {
            match WampError::decode(components) {
                Ok(message) => Ok(Messages::Error(message)),
                Err(e) => Err(e),
            }
        } else if tag == Event::ID {
            match Event::decode(components) {
                Ok(message) => Ok(Messages::Event(message)),
                Err(e) => Err(e),
            }
        } else if tag == Goodbye::ID {
            match Goodbye::decode(components) {
                Ok(message) => Ok(Messages::Goodbye(message)),
                Err(e) => Err(e),
            }
        } else if tag == Hello::ID {
            match Hello::decode(components) {
                Ok(message) => Ok(Messages::Hello(message)),
                Err(e) => Err(e),
            }
        } else if tag == Interrupt::ID {
            match Interrupt::decode(components) {
                Ok(message) => Ok(Messages::Interrupt(message)),
                Err(e) => Err(e),
            }
        } else if tag == Invocation::ID {
            match Invocation::decode(components) {
                Ok(message) => Ok(Messages::Invocation(message)),
                Err(e) => Err(e),
            }
        } else if tag == Publish::ID {
            match Publish::decode(components) {
                Ok(message) => Ok(Messages::Publish(message)),
                Err(e) => Err(e),
            }
        } else if tag == Published::ID {
            match Published::decode(components) {
                Ok(message) => Ok(Messages::Published(message)),
                Err(e) => Err(e),
            }
        } else if tag == Register::ID {
            match Register::decode(components) {
                Ok(message) => Ok(Messages::Register(message)),
                Err(e) => Err(e),
            }
        } else if tag == Registered::ID {
            match Registered::decode(components) {
                Ok(message) => Ok(Messages::Registered(message)),
                Err(e) => Err(e),
            }
        } else if tag == WampResult::ID {
            match WampResult::decode(components) {
                Ok(message) => Ok(Messages::Result(message)),
                Err(e) => Err(e),
            }
        } else if tag == Subscribe::ID {
            match Subscribe::decode(components) {
                Ok(message) => Ok(Messages::Subscribe(message)),
                Err(e) => Err(e),
            }
        } else if tag == Subscribed::ID {
            match Subscribed::decode(components) {
                Ok(message) => Ok(Messages::Subscribed(message)),
                Err(e) => Err(e),
            }
        } else if tag == Unregister::ID {
            match Unregister::decode(components) {
                Ok(message) => Ok(Messages::Unregister(message)),
                Err(e) => Err(e),
            }
        } else if tag == Unregistered::ID {
            match Unregistered::decode(components) {
                Ok(message) => Ok(Messages::Unregistered(message)),
                Err(e) => Err(e),
            }
        } else if tag == Unsubscribe::ID {
            match Unsubscribe::decode(components) {
                Ok(message) => Ok(Messages::Unsubscribe(message)),
                Err(e) => Err(e),
            }
        } else if tag == Unsubscribed::ID {
            match Unsubscribed::decode(components) {
                Ok(message) => Ok(Messages::Unsubscribed(message)),
                Err(e) => Err(e),
            }
        } else if tag == Welcome::ID {
            match Welcome::decode(components) {
                Ok(message) => Ok(Messages::Welcome(message)),
                Err(e) => Err(e),
            }
        } else if tag == Yield::ID {
            match Yield::decode(components) {
                Ok(message) => Ok(Messages::Yield(message)),
                Err(e) => Err(e),
            }
        } else {
            Ok(Messages::Extension(clone_sequence(components)))
        }
    }

    /// Writes the message as the text of a frame.
    pub fn to_string(&self) -> (r: Result<String, Error>)
        ensures
            match frame(Self::spec_encode(self@)) {
                Some(text) => r matches Ok(written) && written@ == text,
                None => r matches Err(error) && rejection(Self::spec_encode(self@), error@),
            },
    {
        print_sequence(self.encode()?)
    }

    /// Reads a message from the text of a frame.
    pub fn from_str(text: &str) -> (r: Result<Messages, Error>)
        ensures
            match parsed_sequence(text@) {
                Some(components) => decoded(r) == Self::spec_decode(components),
                None => r matches Err(error) && unreadable(text@, error@),
            },
    {
        Self::decode(&parse_sequence(text)?)
    }

    /// A sequence with an unsigned tag that names no type of the catalogue is
    /// read as an extension, and never fails.
    pub proof fn lemma_unknown_tag(components: Seq<JsonView>)
        requires
            components.len() > 0,
            components[0].as_u64() matches Some(tag) && !is_catalogue_tag(tag),
        ensures
            Self::spec_decode(components) == Ok::<MessagesView, ErrorView>(
                MessagesView::Extension(components),
            ),
    {
    }

    /// The tag of a sequence decides what it is read as: the message that a
    /// sequence is read as has the tag that leads the sequence.
    pub proof fn lemma_decoded_tag(components: Seq<JsonView>)
        requires
            Self::spec_decode(components) is Ok,
        ensures
            components.len() > 0,
            Self::spec_decode(components)->Ok_0.id() == components[0].as_u64(),
            components[0].as_u64() is Some,
    {
    }

    /// Every message that can be written and read back is read back in its
    /// canonical form.
    pub proof fn lemma_round_trip(message: MessagesView)
        requires
            message.well_formed(),
        ensures
            Self::spec_encode(message) is Ok,
            Self::spec_decode(Self::spec_encode(message)->Ok_0) == Ok::<MessagesView, ErrorView>(
                message.canonical(),
            ),
    {
        match message {
            MessagesView::Abort(m) => Abort::lemma_round_trip(m),
            MessagesView::Authenticate(m) => Authenticate::lemma_round_trip(m),
            MessagesView::Call(m) => Call::lemma_round_trip(m),
            MessagesView::Cancel(m) => Cancel::lemma_round_trip(m),
            MessagesView::Challenge(m) => Challenge::lemma_round_trip(m),
            MessagesView::Error(m) => WampError::lemma_round_trip(m),
            MessagesView::Event(m) => Event::lemma_round_trip(m),
            MessagesView::Goodbye(m) => Goodbye::lemma_round_trip(m),
            MessagesView::Hello(m) => Hello::lemma_round_trip(m),
            MessagesView::Interrupt(m) => Interrupt::lemma_round_trip(m),
            MessagesView::Invocation(m) => Invocation::lemma_round_trip(m),
            MessagesView::Publish(m) => Publish::lemma_round_trip(m),
            MessagesView::Published(m) => Published::lemma_round_trip(m),
            MessagesView::Register(m) => Register::lemma_round_trip(m),
            MessagesView::Registered(m) => Registered::lemma_round_trip(m),
            MessagesView::Result(m) => WampResult::lemma_round_trip(m),
            MessagesView::Subscribe(m) => Subscribe::lemma_round_trip(m),
            MessagesView::Subscribed(m) => Subscribed::lemma_round_trip(m),
            MessagesView::Unregister(m) => Unregister::lemma_round_trip(m),
            MessagesView::Unregistered(m) => Unregistered::lemma_round_trip(m),
            MessagesView::Unsubscribe(m) => Unsubscribe::lemma_round_trip(m),
            MessagesView::Unsubscribed(m) => Unsubscribed::lemma_round_trip(m),
            MessagesView::Welcome(m) => Welcome::lemma_round_trip(m),
            MessagesView::Yield(m) => Yield::lemma_round_trip(m),
            MessagesView::Extension(_) => {},
        }
    }
}

} // verus!
