//! The session of a client: what it does with each frame that the transport
//! hands it.
//!
//! The client owns no transport. Its owner reads a frame, hands it to
//! [`Client::read`], and the message that comes back to
//! [`Client::read_contexts`], which says which continuation is to run and with
//! what. The owner runs it against a fresh context, gives the context that the
//! continuation returns to [`Client::extend_context`], and sends the frames
//! that wait in `context.messages`.

use vstd::prelude::*;
use crate::context::{
    delivered, first_match, is_first_match, lemma_first_match, lemma_last_is_found,
    lemma_no_match, lemma_some_match, Context, ContextView, Delivery, DeliveryView, Pending,
    ResponseView,
};
use crate::error::{Error, ErrorView};
use crate::json::parsed_sequence;
use crate::messages::{
    frame, rejection, unreadable, Abort, Authenticate, Call, Cancel, Challenge, Event, EventView, Goodbye, Hello, Interrupt,
    Invocation, Messages, MessagesView, Publish, Published, Register, Registered, Subscribe,
    SubscribeView, Subscribed, Unregister, Unregistered, Unsubscribe, Unsubscribed, WampError,
    WampErrorEvent, WampErrorView, WampMessage, WampResult, Welcome, Yield,
};
use crate::roles::Roles;

verus! {

/// Where a session stands.
#[derive(Clone, Copy, Debug, PartialEq, Eq, Structural)]
pub enum SessionState {
    NotConnected,
    Connected,
    Authenticating,
    Established,
    Closed,
}

/// What the transport hands over when it is read.
#[derive(Debug, PartialEq, Eq)]
pub enum Frame {
    /// A text frame, which holds one message.
    Text(String),
    /// A binary frame.
    Binary,
    /// A frame of the transport's own: a ping, a pong.
    Control,
    /// The transport is closed.
    Closed,
}

/// The mathematical model of a [`Frame`].
pub enum FrameView {
    Text(Seq<char>),
    Binary,
    Control,
    Closed,
}

impl View for Frame {
    type V = FrameView;

    open spec fn view(&self) -> FrameView {
        match self {
            Frame::Text(text) => FrameView::Text(text@),
            Frame::Binary => FrameView::Binary,
            Frame::Control => FrameView::Control,
            Frame::Closed => FrameView::Closed,
        }
    }
}

/// A message that has been routed: the message itself, and the continuation
/// that is to run for it, if there is one.
#[derive(Debug, PartialEq, Eq)]
pub struct Routed<K> {
    pub message: Messages,
    pub delivery: Option<Delivery<K>>,
}

/// The mathematical model of a [`Routed`] message.
pub struct RoutedView<K> {
    pub message: MessagesView,
    pub delivery: Option<DeliveryView<K>>,
}

impl<K> View for Routed<K> {
    type V = RoutedView<K>;

    open spec fn view(&self) -> RoutedView<K> {
        RoutedView { message: self.message@, delivery: delivered(self.delivery) }
    }
}

/// A message type that some role of a client may receive: a callee, a
/// caller, a publisher or a subscriber.
pub open spec fn client_receives<M: WampMessage>() -> bool {
    ||| M::spec_direction(Roles::Callee).receives
    ||| M::spec_direction(Roles::Caller).receives
    ||| M::spec_direction(Roles::Publisher).receives
    ||| M::spec_direction(Roles::Subscriber).receives
}

/// Whether some role of a client may receive a message type.
pub fn receives_as_client<M: WampMessage>() -> (b: bool)
    ensures
        b == client_receives::<M>(),
{
    M::direction(Roles::Callee).receives || M::direction(Roles::Caller).receives || M::direction(
        Roles::Publisher,
    ).receives || M::direction(Roles::Subscriber).receives
}

impl MessagesView {
    /// A message that a client may receive: one of a type that some role of a
    /// client may receive, or an extension.
    pub open spec fn client_may_receive(self) -> bool {
        match self {
            MessagesView::Abort(_) => client_receives::<Abort>(),
            MessagesView::Authenticate(_) => client_receives::<Authenticate>(),
            MessagesView::Call(_) => client_receives::<Call>(),
            MessagesView::Cancel(_) => client_receives::<Cancel>(),
            MessagesView::Challenge(_) => client_receives::<Challenge>(),
            MessagesView::Error(_) => client_receives::<WampError>(),
            MessagesView::Event(_) => client_receives::<Event>(),
            MessagesView::Goodbye(_) => client_receives::<Goodbye>(),
            MessagesView::Hello(_) => client_receives::<Hello>(),
            MessagesView::Interrupt(_) => client_receives::<Interrupt>(),
            MessagesView::Invocation(_) => client_receives::<Invocation>(),
            MessagesView::Publish(_) => client_receives::<Publish>(),
            MessagesView::Published(_) => client_receives::<Published>(),
            MessagesView::Register(_) => client_receives::<Register>(),
            MessagesView::Registered(_) => client_receives::<Registered>(),
            MessagesView::Result(_) => client_receives::<WampResult>(),
            MessagesView::Subscribe(_) => client_receives::<Subscribe>(),
            MessagesView::Subscribed(_) => client_receives::<Subscribed>(),
            MessagesView::Unregister(_) => client_receives::<Unregister>(),
            MessagesView::Unregistered(_) => client_receives::<Unregistered>(),
            MessagesView::Unsubscribe(_) => client_receives::<Unsubscribe>(),
            MessagesView::Unsubscribed(_) => client_receives::<Unsubscribed>(),
            MessagesView::Welcome(_) => client_receives::<Welcome>(),
            MessagesView::Yield(_) => client_receives::<Yield>(),
            MessagesView::Extension(_) => true,
        }
    }
}

impl Messages {
    /// Whether a client may receive the message.
    pub fn client_may_receive(&self) -> (b: bool)
        ensures
            b == self@.client_may_receive(),
    {
        match self {
            Messages::Abort(_) => receives_as_client::<Abort>(),
            Messages::Authenticate(_) => receives_as_client::<Authenticate>(),
            Messages::Call(_) => receives_as_client::<Call>(),
            Messages::Cancel(_) => receives_as_client::<Cancel>(),
            Messages::Challenge(_) => receives_as_client::<Challenge>(),
            Messages::Error(_) => receives_as_client::<WampError>(),
            Messages::Event(_) => receives_as_client::<Event>(),
            Messages::Goodbye(_) => receives_as_client::<Goodbye>(),
            Messages::Hello(_) => receives_as_client::<Hello>(),
            Messages::Interrupt(_) => receives_as_client::<Interrupt>(),
            Messages::Invocation(_) => receives_as_client::<Invocation>(),
            Messages::Publish(_) => receives_as_client::<Publish>(),
            Messages::Published(_) => receives_as_client::<Published>(),
            Messages::Register(_) => receives_as_client::<Register>(),
            Messages::Registered(_) => receives_as_client::<Registered>(),
            Messages::Result(_) => receives_as_client::<WampResult>(),
            Messages::Subscribe(_) => receives_as_client::<Subscribe>(),
            Messages::Subscribed(_) => receives_as_client::<Subscribed>(),
            Messages::Unregister(_) => receives_as_client::<Unregister>(),
            Messages::Unregistered(_) => receives_as_client::<Unregistered>(),
            Messages::Unsubscribe(_) => receives_as_client::<Unsubscribe>(),
            Messages::Unsubscribed(_) => receives_as_client::<Unsubscribed>(),
            Messages::Welcome(_) => receives_as_client::<Welcome>(),
            Messages::Yield(_) => receives_as_client::<Yield>(),
            Messages::Extension(_) => true,
        }
    }
}

/// The session of a client: its bookkeeping, the continuations for the
/// welcome and the challenge of the session, and where the session stands.
#[derive(Debug, PartialEq, Eq)]
pub struct Client<K> {
    pub context: Context<K>,
    pub on_welcome: Option<K>,
    pub on_challenge: Option<K>,
    pub state: SessionState,
}

/// The mathematical model of a [`Client`].
pub struct ClientView<K> {
    pub context: ContextView<K>,
    pub on_welcome: Option<K>,
    pub on_challenge: Option<K>,
    pub state: SessionState,
}

impl<K> View for Client<K> {
    type V = ClientView<K>;

    open spec fn view(&self) -> ClientView<K> {
        ClientView {
            context: self.context@,
            on_welcome: self.on_welcome,
            on_challenge: self.on_challenge,
            state: self.state,
        }
    }
}

/// The model of what `read` returns.
pub open spec fn read_view(r: Result<Option<Messages>, Error>) -> Result<
    Option<MessagesView>,
    ErrorView,
> {
    match r {
        Ok(Some(message)) => Ok(Some(message@)),
        Ok(None) => Ok(None),
        Err(e) => Err(e@),
    }
}

/// The model of what `read_contexts` returns.
pub open spec fn routed_view<K>(r: Result<Option<Routed<K>>, Error>) -> Result<
    Option<RoutedView<K>>,
    ErrorView,
> {
    match r {
        Ok(Some(routed)) => Ok(Some(routed@)),
        Ok(None) => Ok(None),
        Err(e) => Err(e@),
    }
}

impl<K> ClientView<K> {
    /// The session after a message has arrived.
    ///
    /// A message that no role of a client may receive changes nothing. An
    /// abort and a goodbye close the session. A welcome establishes it, and a
    /// challenge has it authenticate. For every other message, the request that
    /// it answers leaves the context.
    pub open spec fn after(self, message: MessagesView) -> ClientView<K> {
        if !message.client_may_receive() {
            self
        } else {
            match message {
                MessagesView::Abort(_) => ClientView { state: SessionState::Closed, ..self },
                MessagesView::Goodbye(_) => ClientView { state: SessionState::Closed, ..self },
                MessagesView::Welcome(_) => ClientView {
                    state: SessionState::Established,
                    ..self
                },
                MessagesView::Challenge(_) => ClientView {
                    state: SessionState::Authenticating,
                    ..self
                },
                _ => ClientView { context: self.context.settled(message), ..self },
            }
        }
    }

    /// What the arrival of a message leads to.
    ///
    /// A message that no role of a client may receive ends the loop with an
    /// error that holds it, and so does an abort. Every other message is
    /// handed on, with the continuation that is to run for it: for a welcome
    /// and a challenge the continuation of the session, if it is set; for a
    /// goodbye none; else the one that waits for the message in the context.
    pub open spec fn routed(self, message: MessagesView) -> Result<RoutedView<K>, ErrorView> {
        if !message.client_may_receive() {
            Err(ErrorView::InvalidFrameReceived(message))
        } else {
            match message {
                MessagesView::Abort(abort) => Err(ErrorView::Abort(abort)),
                MessagesView::Goodbye(_) => Ok(RoutedView { message, delivery: None }),
                MessagesView::Welcome(welcome) => Ok(
                    RoutedView {
                        message,
                        delivery: if self.on_welcome is Some {
                            Some(DeliveryView::Welcome(welcome))
                        } else {
                            None
                        },
                    },
                ),
                MessagesView::Challenge(challenge) => Ok(
                    RoutedView {
                        message,
                        delivery: if self.on_challenge is Some {
                            Some(DeliveryView::Challenge(challenge))
                        } else {
                            None
                        },
                    },
                ),
                _ => Ok(RoutedView { message, delivery: self.context.awaited(message) }),
            }
        }
    }
}

impl<K> Client<K> {
    /// A client that is not connected, with nothing in its context.
    pub fn new() -> (r: Self)
        ensures
            r@ == (ClientView {
                context: ContextView::<K>::empty(),
                on_welcome: None,
                on_challenge: None,
                state: SessionState::NotConnected,
            }),
            r@.context.wf(),
    {
        Client {
            context: Context::new(),
            on_welcome: None,
            on_challenge: None,
            state: SessionState::NotConnected,
        }
    }

    /// Records that the transport is open.
    pub fn connect(&mut self)
        ensures
            final(self)@ == (ClientView { state: SessionState::Connected, ..old(self)@ }),
    {
        self.state = SessionState::Connected;
    }

    /// Sets the continuation for the welcome of the session, and hands the
    /// client back for the next setting.
    pub fn on_welcome(&mut self, on_welcome: K) -> (client: &mut Self)
        ensures
            client@ == (ClientView { on_welcome: Some(on_welcome), ..old(self)@ }),
            *final(self) == *final(client),
    {
        self.on_welcome = Some(on_welcome);
        self
    }

    /// Sets the continuation for the challenge of the session, and hands the
    /// client back for the next setting.
    pub fn on_challenge(&mut self, on_challenge: K) -> (client: &mut Self)
        ensures
            client@ == (ClientView { on_challenge: Some(on_challenge), ..old(self)@ }),
            *final(self) == *final(client),
    {
        self.on_challenge = Some(on_challenge);
        self
    }

    /// Takes a registration into the context of the session.
    pub fn register(&mut self, register: Register, callback: K) -> (r: Result<(), Error>)
        ensures
            match frame(Register::spec_encode(register@)) {
                Some(text) => r is Ok && final(self)@ == (ClientView {
                    context: old(self)@.context.with_register(register@, callback, text),
                    ..old(self)@
                }),
                None => {
                    &&& final(self)@ == old(self)@
                    &&& r matches Err(error) && rejection(
                        Register::spec_encode(register@),
                        error@,
                    )
                },
            },
    {
        self.context.register(register, callback)
    }

    /// Takes an unregistration into the context of the session.
    pub fn unregister(&mut self, unregister: Unregister, callback: K) -> (r: Result<(), Error>)
        ensures
            match frame(Unregister::spec_encode(unregister@)) {
                Some(text) => r is Ok && final(self)@ == (ClientView {
                    context: old(self)@.context.with_unregister(unregister@, callback, text),
                    ..old(self)@
                }),
                None => {
                    &&& final(self)@ == old(self)@
                    &&& r matches Err(error) && rejection(
                        Unregister::spec_encode(unregister@),
                        error@,
                    )
                },
            },
    {
        self.context.unregister(unregister, callback)
    }

    /// Takes a subscription into the context of the session.
    pub fn subscribe(&mut self, subscribe: Subscribe, callback: K) -> (r: Result<(), Error>)
        ensures
            match frame(Subscribe::spec_encode(subscribe@)) {
                Some(text) => r is Ok && final(self)@ == (ClientView {
                    context: old(self)@.context.with_subscribe(subscribe@, callback, text),
                    ..old(self)@
                }),
                None => {
                    &&& final(self)@ == old(self)@
                    &&& r matches Err(error) && rejection(
                        Subscribe::spec_encode(subscribe@),
                        error@,
                    )
                },
            },
    {
        self.context.subscribe(subscribe, callback)
    }

    /// Takes an unsubscription into the context of the session.
    pub fn unsubscribe(&mut self, unsubscribe: Unsubscribe, callback: K) -> (r: Result<(), Error>)
        ensures
            match frame(Unsubscribe::spec_encode(unsubscribe@)) {
                Some(text) => r is Ok && final(self)@ == (ClientView {
                    context: old(self)@.context.with_unsubscribe(unsubscribe@, callback, text),
                    ..old(self)@
                }),
                None => {
                    &&& final(self)@ == old(self)@
                    &&& r matches Err(error) && rejection(
                        Unsubscribe::spec_encode(unsubscribe@),
                        error@,
                    )
                },
            },
    {
        self.context.unsubscribe(unsubscribe, callback)
    }

    /// Takes a publication into the context of the session.
    pub fn publish(&mut self, publish: Publish, callback: K) -> (r: Result<(), Error>)
        ensures
            match frame(Publish::spec_encode(publish@)) {
                Some(text) => r is Ok && final(self)@ == (ClientView {
                    context: old(self)@.context.with_publish(publish@, callback, text),
                    ..old(self)@
                }),
                None => {
                    &&& final(self)@ == old(self)@
                    &&& r matches Err(error) && rejection(
                        Publish::spec_encode(publish@),
                        error@,
                    )
                },
            },
    {
        self.context.publish(publish, callback)
    }

    /// Takes a call into the context of the session.
    pub fn call(&mut self, call: Call, callback: K) -> (r: Result<(), Error>)
        ensures
            match frame(Call::spec_encode(call@)) {
                Some(text) => r is Ok && final(self)@ == (ClientView {
                    context: old(self)@.context.with_call(call@, callback, text),
                    ..old(self)@
                }),
                None => {
                    &&& final(self)@ == old(self)@
                    &&& r matches Err(error) && rejection(
                        Call::spec_encode(call@),
                        error@,
                    )
                },
            },
    {
        self.context.call(call, callback)
    }

    /// Takes a cancelation into the context of the session.
    pub fn cancel(&mut self, cancel: Cancel, callback: K) -> (r: Result<(), Error>)
        ensures
            match frame(Cancel::spec_encode(cancel@)) {
                Some(text) => r is Ok && final(self)@ == (ClientView {
                    context: old(self)@.context.with_cancel(cancel@, callback, text),
                    ..old(self)@
                }),
                None => {
                    &&& final(self)@ == old(self)@
                    &&& r matches Err(error) && rejection(
                        Cancel::spec_encode(cancel@),
                        error@,
                    )
                },
            },
    {
        self.context.cancel(cancel, callback)
    }

    /// Takes a listener for the events of a subscription into the context of
    /// the session.
    pub fn event(&mut self, subscribed: Subscribed, callback: K) -> (r: Result<(), Error>)
        ensures
            r is Ok,
            final(self)@ == (ClientView {
                context: old(self)@.context.with_event(subscribed@, callback),
                ..old(self)@
            }),
    {
        self.context.event(subscribed, callback)
    }

    /// Takes a listener for the invocations of a registration into the
    /// context of the session.
    pub fn invocation(&mut self, invocation: Registered, callback: K) -> (r: Result<(), Error>)
        ensures
            match frame(Registered::spec_encode(invocation@)) {
                Some(text) => r is Ok && final(self)@ == (ClientView {
                    context: old(self)@.context.with_invocation(invocation@, callback, text),
                    ..old(self)@
                }),
                None => {
                    &&& final(self)@ == old(self)@
                    &&& r matches Err(error) && rejection(
                        Registered::spec_encode(invocation@),
                        error@,
                    )
                },
            },
    {
        self.context.invocation(invocation, callback)
    }
    /// Reads what a frame holds. A text frame holds a message. A binary frame
    /// is an error of its own. A control frame holds nothing. A closed
    /// transport closes the session and is an error.
    pub fn read(&mut self, frame: Frame) -> (r: Result<Option<Messages>, Error>)
        ensures
            match frame@ {
                FrameView::Text(text) => final(self)@ == old(self)@ && match parsed_sequence(
                    text,
                ) {
                    Some(components) => match Messages::spec_decode(components) {
                        Ok(message) => read_view(r) == Ok::<Option<MessagesView>, ErrorView>(
                            Some(message),
                        ),
                        Err(e) => read_view(r) == Err::<Option<MessagesView>, ErrorView>(e),
                    },
                    None => r matches Err(e) && unreadable(text, e@),
                },
                FrameView::Binary => final(self)@ == old(self)@ && read_view(r) == Err::<
                    Option<MessagesView>,
                    ErrorView,
                >(ErrorView::UnsupportedEncoding),
                FrameView::Control => final(self)@ == old(self)@ && read_view(r) == Ok::<
                    Option<MessagesView>,
                    ErrorView,
                >(None),
                FrameView::Closed => final(self)@ == (ClientView {
                    state: SessionState::Closed,
                    ..old(self)@
                }) && read_view(r) == Err::<Option<MessagesView>, ErrorView>(ErrorView::Close),
            },
    {
        match frame {
            Frame::Text(text) => match Messages::from_str(text.as_str()) {
                Ok(message) => Ok(Some(message)),
                Err(e) => Err(e),
            },
            Frame::Binary => Err(Error::UnsupportedEncoding),
            Frame::Control => Ok(None),
            Frame::Closed => {
                self.state = SessionState::Closed;
                Err(Error::Close)
            },
        }
    }

    /// Routes a message that has arrived: finds the continuation that is to
    /// run for it, takes the request that it answers out of the context, and
    /// moves the session on. Without a message nothing happens.
    pub fn read_contexts(&mut self, message: Option<Messages>) -> (r: Result<
        Option<Routed<K>>,
        Error,
    >)
        ensures
            match message {
                None => final(self)@ == old(self)@ && r matches Ok(None),
                Some(m) => final(self)@ == old(self)@.after(m@) && match old(self)@.routed(m@) {
                    Ok(routed) => routed_view(r) == Ok::<Option<RoutedView<K>>, ErrorView>(
                        Some(routed),
                    ),
                    Err(e) => routed_view(r) == Err::<Option<RoutedView<K>>, ErrorView>(e),
                },
            },
            old(self)@.context.wf() ==> final(self)@.context.wf(),
    {
        let message = match message {
            Some(message) => message,
            None => {
                return Ok(None);
            },
        };
        if !message.client_may_receive() {
            return Err(Error::InvalidFrameReceived(message));
        }
        match message {
            Messages::Abort(abort) => {
                self.state = SessionState::Closed;
                Err(Error::Abort(abort))
            },
            Messages::Goodbye(goodbye) => {
                self.state = SessionState::Closed;
                Ok(Some(Routed { message: Messages::Goodbye(goodbye), delivery: None }))
            },
            Messages::Welcome(welcome) => {
                self.state = SessionState::Established;
                let delivery = if self.on_welcome.is_some() {
                    Some(Delivery::Welcome(welcome.clone()))
                } else {
                    None
                };
                Ok(Some(Routed { message: Messages::Welcome(welcome), delivery }))
            },
            Messages::Challenge(challenge) => {
                self.state = SessionState::Authenticating;
                let delivery = if self.on_challenge.is_some() {
                    Some(Delivery::Challenge(challenge.clone()))
                } else {
                    None
                };
                Ok(Some(Routed { message: Messages::Challenge(challenge), delivery }))
            },
            _ => {
                let delivery = self.context.settle(&message);
                Ok(Some(Routed { message, delivery }))
            },
        }
    }

    /// Folds the context that a continuation has returned into the context of
    /// the session: its entries and its frames go behind those of the session.
    pub fn extend_context(&mut self, context: Context<K>)
        ensures
            final(self)@ == (ClientView {
                context: old(self)@.context.extend(context@),
                ..old(self)@
            }),
            old(self)@.context.wf() && context@.wf() && old(self)@.context.disjoint(context@)
                ==> final(self)@.context.wf(),
    {
        self.context.extend(context);
    }

    /// Takes the request that an error answers out of the context, and runs
    /// nothing. An error comes back as it came; for any other message nothing
    /// happens and nothing comes back.
    pub fn handle_and_empty_contexts(&mut self, message: Messages) -> (r: Result<
        Option<Messages>,
        Error,
    >)
        ensures
            match message@ {
                MessagesView::Error(_) => final(self)@ == (ClientView {
                    context: old(self)@.context.settled(message@),
                    ..old(self)@
                }) && read_view(r) == Ok::<Option<MessagesView>, ErrorView>(Some(message@)),
                _ => final(self)@ == old(self)@ && r matches Ok(None),
            },
            old(self)@.context.wf() ==> final(self)@.context.wf(),
    {
        match message {
            Messages::Error(error) => {
                let message = Messages::Error(error);
                let _ = self.context.settle(&message);
                Ok(Some(message))
            },
            _ => Ok(None),
        }
    }

    /// Writes a message and keeps its frame for the transport.
    pub fn send<M: WampMessage>(&mut self, message: &M) -> (r: Result<(), Error>)
        ensures
            match frame(M::spec_encode(message@)) {
                Some(text) => r is Ok && final(self)@ == (ClientView {
                    context: ContextView {
                        messages: old(self)@.context.messages.push(text),
                        ..old(self)@.context
                    },
                    ..old(self)@
                }),
                None => {
                    &&& final(self)@ == old(self)@
                    &&& r matches Err(error) && rejection(
                        M::spec_encode(message@),
                        error@,
                    )
                },
            },
    {
        self.context.send(message)
    }
}

/// The messages that no role of a client may receive are those of ten
/// types: the opening and the authentication of a session, and the requests
/// that a client makes itself. Each of them ends the loop and changes nothing;
/// no other message ends the loop in this way.
pub proof fn lemma_receive_illegal<K>(client: ClientView<K>, message: MessagesView)
    ensures
        !message.client_may_receive() <==> {
            ||| message is Hello
            ||| message is Authenticate
            ||| message is Call
            ||| message is Cancel
            ||| message is Yield
            ||| message is Publish
            ||| message is Register
            ||| message is Subscribe
            ||| message is Unregister
            ||| message is Unsubscribe
        },
        !message.client_may_receive() <==> client.routed(message) == Err::<
            RoutedView<K>,
            ErrorView,
        >(ErrorView::InvalidFrameReceived(message)),
        !message.client_may_receive() ==> client.after(message) == client,
{
}

/// A subscription is answered once. Once the context has taken the request,
/// the acknowledgement with its request id runs the continuation of the
/// request with that acknowledgement, and the request leaves the context. A
/// second acknowledgement with the same request id runs nothing.
pub proof fn lemma_subscribed_answers_once<K>(
    client: ClientView<K>,
    subscribe: SubscribeView,
    callback: K,
    text: Seq<char>,
    subscribed: Subscribed,
)
    requires
        client.context.with_subscribe(subscribe, callback, text).wf(),
        subscribed.request_id == subscribe.request_id,
    ensures
        ({
            let waiting = ClientView {
                context: client.context.with_subscribe(subscribe, callback, text),
                ..client
            };
            let message = MessagesView::Subscribed(subscribed);
            &&& waiting.routed(message) == Ok::<RoutedView<K>, ErrorView>(
                RoutedView {
                    message,
                    delivery: Some(
                        DeliveryView::Once {
                            continuation: callback,
                            response: ResponseView::Subscribed(Ok(subscribed)),
                        },
                    ),
                },
            )
            &&& waiting.after(message).context.subscriptions == client.context.subscriptions
            &&& waiting.after(message).routed(message) == Ok::<RoutedView<K>, ErrorView>(
                RoutedView { message, delivery: None },
            )
        }),
{
    lemma_last_is_found::<Subscribe, K>(client.context.subscriptions, subscribe, callback);
}

/// An error that answers a subscription runs the continuation of the request
/// with that error, and the request leaves the context.
pub proof fn lemma_error_answers_subscribe<K>(
    client: ClientView<K>,
    subscribe: SubscribeView,
    callback: K,
    text: Seq<char>,
    error: WampErrorView,
)
    requires
        client.context.with_subscribe(subscribe, callback, text).wf(),
        error.event == WampErrorEvent::Subscribe,
        error.request_id == subscribe.request_id,
    ensures
        ({
            let waiting = ClientView {
                context: client.context.with_subscribe(subscribe, callback, text),
                ..client
            };
            let message = MessagesView::Error(error);
            &&& waiting.routed(message) == Ok::<RoutedView<K>, ErrorView>(
                RoutedView {
                    message,
                    delivery: Some(
                        DeliveryView::Once {
                            continuation: callback,
                            response: ResponseView::Subscribed(Err(error)),
                        },
                    ),
                },
            )
            &&& waiting.after(message).context.subscriptions == client.context.subscriptions
        }),
{
    lemma_last_is_found::<Subscribe, K>(client.context.subscriptions, subscribe, callback);
}

/// An error whose request id no subscription waits under runs nothing, changes
/// nothing, and is handed on.
pub proof fn lemma_error_for_unknown_request<K>(client: ClientView<K>, error: WampErrorView)
    requires
        error.event == WampErrorEvent::Subscribe,
        forall|j: int|
            0 <= j < client.context.subscriptions.len() ==> (
            #[trigger] client.context.subscriptions[j]).0.request_id != error.request_id,
    ensures
        client.routed(MessagesView::Error(error)) == Ok::<RoutedView<K>, ErrorView>(
            RoutedView { message: MessagesView::Error(error), delivery: None },
        ),
        client.after(MessagesView::Error(error)) == client,
{
    lemma_no_match::<Subscribe, K>(client.context.subscriptions, error.request_id);
}

/// A listener stays. An event for a subscription that has a listener runs the
/// first listener for that subscription, and leaves the session as it was, so
/// that the next event for the subscription runs the same listener.
pub proof fn lemma_event_listener_stays<K>(client: ClientView<K>, event: EventView, slot: int)
    requires
        first_match::<Subscribed, K>(client.context.events, event.subscription) == Some(slot),
    ensures
        client.routed(MessagesView::Event(event)) == Ok::<RoutedView<K>, ErrorView>(
            RoutedView {
                message: MessagesView::Event(event),
                delivery: Some(DeliveryView::Event { slot, event }),
            },
        ),
        client.after(MessagesView::Event(event)) == client,
{
}

/// A listener that the context takes for a subscription without a listener
/// is the one that the events of that subscription run.
pub proof fn lemma_event_finds_listener<K>(
    client: ClientView<K>,
    subscribed: Subscribed,
    callback: K,
    event: EventView,
)
    requires
        event.subscription == subscribed.subscription,
        first_match::<Subscribed, K>(client.context.events, event.subscription) is None,
    ensures
        first_match::<Subscribed, K>(
            client.context.with_event(subscribed, callback).events,
            event.subscription,
        ) == Some(client.context.events.len() as int),
        client.context.with_event(subscribed, callback).events[client.context.events.len() as int].1
            == callback,
{
    let entries = client.context.events.push((subscribed, callback));
    let last = client.context.events.len() as int;
    assert(entries[last].0 == subscribed);
    assert forall|j: int| 0 <= j < last implies Subscribed::spec_key(#[trigger] entries[j].0)
        != event.subscription by {
        if Subscribed::spec_key(entries[j].0) == event.subscription {
            lemma_some_match::<Subscribed, K>(client.context.events, event.subscription, j);
        }
    }
    assert(is_first_match::<Subscribed, K>(entries, event.subscription, last));
    lemma_first_match::<Subscribed, K>(entries, event.subscription, last);
}

/// What a continuation submits reaches the session. A request that a fresh
/// context has taken is, once that context is folded into the session, the
/// last of the requests of its kind, and its frame is the last of the frames
/// that wait. The acknowledgement with its request id then runs its
/// continuation.
pub proof fn lemma_submission_reaches_session<K>(
    client: ClientView<K>,
    subscribe: SubscribeView,
    callback: K,
    text: Seq<char>,
    subscribed: Subscribed,
)
    requires
        subscribed.request_id == subscribe.request_id,
        client.context.extend(
            ContextView::<K>::empty().with_subscribe(subscribe, callback, text),
        ).wf(),
    ensures
        ({
            let fragment = ContextView::<K>::empty().with_subscribe(subscribe, callback, text);
            let folded = ClientView { context: client.context.extend(fragment), ..client };
            let message = MessagesView::Subscribed(subscribed);
            &&& folded.context == client.context.with_subscribe(subscribe, callback, text)
            &&& folded.routed(message) == Ok::<RoutedView<K>, ErrorView>(
                RoutedView {
                    message,
                    delivery: Some(
                        DeliveryView::Once {
                            continuation: callback,
                            response: ResponseView::Subscribed(Ok(subscribed)),
                        },
                    ),
                },
            )
        }),
{
    let fragment = ContextView::<K>::empty().with_subscribe(subscribe, callback, text);
    let folded = client.context.extend(fragment);
    let target = client.context.with_subscribe(subscribe, callback, text);
    assert(folded.registrations =~= target.registrations);
    assert(folded.unregistrations =~= target.unregistrations);
    assert(folded.subscriptions =~= target.subscriptions);
    assert(folded.unsubscriptions =~= target.unsubscriptions);
    assert(folded.publications =~= target.publications);
    assert(folded.calls =~= target.calls);
    assert(folded.events =~= target.events);
    assert(folded.invocations =~= target.invocations);
    assert(folded.cancelations =~= target.cancelations);
    assert(folded.messages =~= target.messages);
    lemma_subscribed_answers_once(client, subscribe, callback, text, subscribed);
}

} // verus!
