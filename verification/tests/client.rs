use wamp::client::{receives_as_client, Client, Frame, Routed, SessionState};
use wamp::context::{Context, Delivery, Response};
use wamp::error::{Error, Field};
use wamp::messages::{
    Abort, Authenticate, Call, Cancel, Challenge, Event, Goodbye, Hello, Messages, Publish,
    Register, Subscribe, Subscribed, Unregister, Unsubscribe, WampError, WampErrorEvent, Welcome,
    Yield,
};
use wamp::value::Json;

fn empty() -> Json {
    Json::Object(vec![])
}

fn subscribe(request_id: u64) -> Subscribe {
    Subscribe { request_id, options: empty(), topic: "t".to_string() }
}

fn subscribe_error(request_id: u64) -> WampError {
    WampError {
        event: WampErrorEvent::Subscribe,
        request_id,
        details: empty(),
        error: "wamp.error.not_authorized".to_string(),
    }
}

fn passed<K>(message: Messages) -> Result<Option<Routed<K>>, Error> {
    Ok(Some(Routed { message, delivery: None }))
}

#[test]
fn a_new_client_is_not_connected() {
    let mut client: Client<u8> = Client::new();
    assert_eq!(client.state, SessionState::NotConnected);
    assert_eq!(client.on_welcome, None);
    assert_eq!(client.on_challenge, None);
    assert_eq!(client.context, Context::new());
    client.connect();
    assert_eq!(client.state, SessionState::Connected);
}

#[test]
fn the_session_moves_with_the_messages() {
    let mut client: Client<u8> = Client::new();
    client.connect();
    let challenge = Challenge { authmethod: "ticket".to_string(), details: empty() };
    assert_eq!(
        client.read_contexts(Some(Messages::Challenge(challenge.clone()))),
        passed(Messages::Challenge(challenge))
    );
    assert_eq!(client.state, SessionState::Authenticating);
    let welcome = Welcome { session: 1, details: empty() };
    assert_eq!(
        client.read_contexts(Some(Messages::Welcome(welcome.clone()))),
        passed(Messages::Welcome(welcome))
    );
    assert_eq!(client.state, SessionState::Established);
    let goodbye = Goodbye { details: empty(), reason: "wamp.close.close_realm".to_string() };
    assert_eq!(
        client.read_contexts(Some(Messages::Goodbye(goodbye.clone()))),
        passed(Messages::Goodbye(goodbye))
    );
    assert_eq!(client.state, SessionState::Closed);
}

#[test]
fn an_abort_ends_the_loop_with_its_payload() {
    let mut client: Client<u8> = Client::new();
    client.connect();
    let abort = Abort { details: empty(), reason: "wamp.error.no_such_realm".to_string() };
    assert_eq!(
        client.read_contexts(Some(Messages::Abort(abort.clone()))),
        Err(Error::Abort(abort))
    );
    assert_eq!(client.state, SessionState::Closed);
}

#[test]
fn the_continuations_of_the_session_run_when_they_are_set() {
    let mut client: Client<&str> = Client::new();
    let welcome = Welcome { session: 1, details: empty() };
    let challenge = Challenge { authmethod: "ticket".to_string(), details: empty() };
    client.on_welcome("welcome");
    assert_eq!(client.on_welcome, Some("welcome"));
    assert_eq!(
        client.read_contexts(Some(Messages::Welcome(welcome.clone()))),
        Ok(Some(Routed {
            message: Messages::Welcome(welcome.clone()),
            delivery: Some(Delivery::Welcome(welcome.clone())),
        }))
    );
    assert_eq!(
        client.read_contexts(Some(Messages::Challenge(challenge.clone()))),
        passed(Messages::Challenge(challenge.clone()))
    );
    client.on_challenge("challenge");
    assert_eq!(
        client.read_contexts(Some(Messages::Challenge(challenge.clone()))),
        Ok(Some(Routed {
            message: Messages::Challenge(challenge.clone()),
            delivery: Some(Delivery::Challenge(challenge)),
        }))
    );
    assert_eq!(client.on_welcome, Some("welcome"));
    assert_eq!(client.on_challenge, Some("challenge"));
}

#[test]
fn without_a_message_nothing_happens() {
    let mut client: Client<u8> = Client::new();
    client.subscribe(subscribe(1), 1).unwrap();
    let before = client.context.subscriptions.len();
    assert_eq!(client.read_contexts(None), Ok(None));
    assert_eq!(client.context.subscriptions.len(), before);
    assert_eq!(client.state, SessionState::NotConnected);
}

#[test]
fn a_subscription_is_answered_once() {
    let mut client: Client<&str> = Client::new();
    client.subscribe(subscribe(41), "on subscribed").unwrap();
    assert_eq!(client.context.messages, vec![r#"[32,41,{},"t"]"#.to_string()]);
    let reply = Subscribed { request_id: 41, subscription: 500 };
    assert_eq!(
        client.read_contexts(Some(Messages::Subscribed(reply))),
        Ok(Some(Routed {
            message: Messages::Subscribed(reply),
            delivery: Some(Delivery::Once {
                continuation: "on subscribed",
                response: Response::Subscribed(Ok(reply)),
            }),
        }))
    );
    assert!(client.context.subscriptions.is_empty());
    assert_eq!(
        client.read_contexts(Some(Messages::Subscribed(reply))),
        passed(Messages::Subscribed(reply))
    );
}

#[test]
fn an_error_answers_a_live_subscription() {
    let mut client: Client<&str> = Client::new();
    client.subscribe(subscribe(41), "on subscribed").unwrap();
    let error = subscribe_error(41);
    assert_eq!(
        client.read_contexts(Some(Messages::Error(error.clone()))),
        Ok(Some(Routed {
            message: Messages::Error(error.clone()),
            delivery: Some(Delivery::Once {
                continuation: "on subscribed",
                response: Response::Subscribed(Err(error.clone())),
            }),
        }))
    );
    assert!(client.context.subscriptions.is_empty());
}

#[test]
fn an_error_for_an_unknown_request_is_handed_on() {
    let mut client: Client<&str> = Client::new();
    client.subscribe(subscribe(41), "on subscribed").unwrap();
    let error = subscribe_error(42);
    assert_eq!(
        client.read_contexts(Some(Messages::Error(error.clone()))),
        passed(Messages::Error(error))
    );
    assert_eq!(client.context.subscriptions.len(), 1);
}

#[test]
fn events_run_the_listener_again_and_again() {
    let mut client: Client<&str> = Client::new();
    client.subscribe(subscribe(41), "on subscribed").unwrap();
    let reply = Subscribed { request_id: 41, subscription: 500 };
    client.read_contexts(Some(Messages::Subscribed(reply))).unwrap();
    // The continuation of the subscription takes a listener for its events.
    let mut fragment: Context<&str> = Context::new();
    fragment.event(reply, "on event").unwrap();
    client.extend_context(fragment);

    for publication in 1..=3 {
        let event = Event {
            subscription: 500,
            publication,
            details: empty(),
            args: Json::Null,
            kwargs: Json::Null,
        };
        assert_eq!(
            client.read_contexts(Some(Messages::Event(event.clone()))),
            Ok(Some(Routed {
                message: Messages::Event(event.clone()),
                delivery: Some(Delivery::Event { slot: 0, event }),
            }))
        );
        assert_eq!(client.context.events, vec![(reply, "on event")]);
    }
    let stray = Event {
        subscription: 501,
        publication: 1,
        details: empty(),
        args: Json::Null,
        kwargs: Json::Null,
    };
    assert_eq!(
        client.read_contexts(Some(Messages::Event(stray.clone()))),
        passed(Messages::Event(stray))
    );
}

#[test]
fn what_a_continuation_submits_reaches_the_session() {
    let mut client: Client<&str> = Client::new();
    client.subscribe(subscribe(1), "first").unwrap();
    let sent = client.context.take_messages();
    assert_eq!(sent.len(), 1);

    let mut fragment: Context<&str> = Context::new();
    fragment.subscribe(subscribe(2), "second").unwrap();
    client.extend_context(fragment);
    assert_eq!(
        client.context.subscriptions,
        vec![(subscribe(1), "first"), (subscribe(2), "second")]
    );
    assert_eq!(client.context.messages, vec![r#"[32,2,{},"t"]"#.to_string()]);

    let reply = Subscribed { request_id: 2, subscription: 9 };
    assert_eq!(
        client.read_contexts(Some(Messages::Subscribed(reply))),
        Ok(Some(Routed {
            message: Messages::Subscribed(reply),
            delivery: Some(Delivery::Once {
                continuation: "second",
                response: Response::Subscribed(Ok(reply)),
            }),
        }))
    );
    assert_eq!(client.context.subscriptions, vec![(subscribe(1), "first")]);
}

#[test]
fn messages_that_a_client_never_receives_end_the_loop() {
    let illegal = vec![
        Messages::Hello(Hello { realm: "r".to_string(), details: empty() }),
        Messages::Authenticate(Authenticate { signature: "s".to_string(), details: empty() }),
        Messages::Call(Call {
            request_id: 1,
            options: empty(),
            procedure: "p".to_string(),
            args: Json::Null,
            kwargs: Json::Null,
        }),
        Messages::Cancel(Cancel { request_id: 1, options: empty() }),
        Messages::Yield(Yield {
            request_id: 1,
            options: empty(),
            args: Json::Null,
            kwargs: Json::Null,
        }),
        Messages::Publish(Publish {
            request_id: 1,
            options: empty(),
            topic: "t".to_string(),
            args: Json::Null,
            kwargs: Json::Null,
        }),
        Messages::Register(Register {
            request_id: 1,
            options: empty(),
            procedure: "p".to_string(),
        }),
        Messages::Subscribe(subscribe(1)),
        Messages::Unregister(Unregister { request_id: 1, registration: 2 }),
        Messages::Unsubscribe(Unsubscribe { request_id: 1, subscription: 2 }),
    ];
    for message in illegal {
        let mut client: Client<u8> = Client::new();
        client.connect();
        client.subscribe(subscribe(1), 1).unwrap();
        assert_eq!(
            client.read_contexts(Some(message.clone())),
            Err(Error::InvalidFrameReceived(message))
        );
        assert_eq!(client.state, SessionState::Connected);
        assert_eq!(client.context.subscriptions.len(), 1);
    }
}

#[test]
fn the_tables_say_what_a_client_may_receive() {
    assert!(!receives_as_client::<Hello>());
    assert!(!receives_as_client::<Authenticate>());
    assert!(!receives_as_client::<Call>());
    assert!(!receives_as_client::<Cancel>());
    assert!(!receives_as_client::<Yield>());
    assert!(!receives_as_client::<Publish>());
    assert!(!receives_as_client::<Register>());
    assert!(!receives_as_client::<Subscribe>());
    assert!(!receives_as_client::<Unregister>());
    assert!(!receives_as_client::<Unsubscribe>());
    assert!(receives_as_client::<Welcome>());
    assert!(receives_as_client::<Abort>());
    assert!(receives_as_client::<Challenge>());
    assert!(receives_as_client::<Goodbye>());
    assert!(receives_as_client::<WampError>());
    assert!(receives_as_client::<Event>());
    assert!(receives_as_client::<Subscribed>());
    assert!(receives_as_client::<wamp::messages::Published>());
    assert!(receives_as_client::<wamp::messages::Registered>());
    assert!(receives_as_client::<wamp::messages::WampResult>());
    assert!(receives_as_client::<wamp::messages::Unregistered>());
    assert!(receives_as_client::<wamp::messages::Unsubscribed>());
    assert!(receives_as_client::<wamp::messages::Invocation>());
    assert!(receives_as_client::<wamp::messages::Interrupt>());
    assert!(Messages::from_str("[33,1,2]").unwrap().client_may_receive());
    assert!(!Messages::from_str("[34,1,2]").unwrap().client_may_receive());
    assert!(Messages::from_str("[1000]").unwrap().client_may_receive());
}

#[test]
fn an_extension_is_handed_on() {
    let mut client: Client<u8> = Client::new();
    let extension = Messages::from_str("[999,1]").unwrap();
    assert_eq!(client.read_contexts(Some(extension.clone())), passed(extension));
}

#[test]
fn frames_are_read_by_their_kind() {
    let mut client: Client<u8> = Client::new();
    client.connect();
    assert_eq!(
        client.read(Frame::Text("[33,1,2]".to_string())),
        Ok(Some(Messages::Subscribed(Subscribed { request_id: 1, subscription: 2 })))
    );
    assert_eq!(client.read(Frame::Control), Ok(None));
    assert_eq!(client.read(Frame::Binary), Err(Error::UnsupportedEncoding));
    assert_eq!(
        client.read(Frame::Text("[33,1]".to_string())),
        Err(Error::MissingField(Field::Subscription))
    );
    assert!(matches!(
        client.read(Frame::Text("not json".to_string())),
        Err(Error::SerdeJsonError(_))
    ));
    assert_eq!(client.read(Frame::Text("[]".to_string())), Err(Error::InvalidMessageEnumMember));
    assert_eq!(client.read(Frame::Text("{}".to_string())), Err(Error::NotASequence));
    assert_eq!(client.state, SessionState::Connected);
    assert_eq!(client.read(Frame::Closed), Err(Error::Close));
    assert_eq!(client.state, SessionState::Closed);
}

#[test]
fn an_error_can_empty_the_context_without_running_anything() {
    let mut client: Client<&str> = Client::new();
    client.subscribe(subscribe(1), "first").unwrap();
    client.subscribe(subscribe(2), "second").unwrap();
    let error = Messages::Error(subscribe_error(1));
    assert_eq!(client.handle_and_empty_contexts(error.clone()), Ok(Some(error)));
    assert_eq!(client.context.subscriptions, vec![(subscribe(2), "second")]);
    let other = Messages::Subscribed(Subscribed { request_id: 2, subscription: 3 });
    assert_eq!(client.handle_and_empty_contexts(other), Ok(None));
    assert_eq!(client.context.subscriptions.len(), 1);
}

#[test]
fn the_client_hands_requests_to_its_context() {
    let mut client: Client<u8> = Client::new();
    client.publish(
        Publish {
            request_id: 1,
            options: empty(),
            topic: "t".to_string(),
            args: Json::Null,
            kwargs: Json::Null,
        },
        1,
    )
    .unwrap();
    client
        .register(Register { request_id: 2, options: empty(), procedure: "p".to_string() }, 2)
        .unwrap();
    client.unregister(Unregister { request_id: 3, registration: 1 }, 3).unwrap();
    client.event(Subscribed { request_id: 4, subscription: 1 }, 4).unwrap();
    client.unsubscribe(Unsubscribe { request_id: 5, subscription: 1 }, 5).unwrap();
    client.subscribe(subscribe(6), 6).unwrap();
    client
        .call(
            Call {
                request_id: 7,
                options: empty(),
                procedure: "p".to_string(),
                args: Json::Null,
                kwargs: Json::Null,
            },
            7,
        )
        .unwrap();
    client
        .invocation(wamp::messages::Registered { request_id: 8, registration: 1 }, 8)
        .unwrap();
    client.cancel(Cancel { request_id: 9, options: empty() }, 9).unwrap();
    client.send(&Hello { realm: "r".to_string(), details: empty() }).unwrap();
    let c = &client.context;
    assert_eq!(
        (
            c.publications.len(),
            c.registrations.len(),
            c.unregistrations.len(),
            c.events.len(),
            c.unsubscriptions.len(),
            c.subscriptions.len(),
            c.calls.len(),
            c.invocations.len(),
            c.cancelations.len()
        ),
        (1, 1, 1, 1, 1, 1, 1, 1, 1)
    );
    assert_eq!(c.messages.len(), 9);
    assert_eq!(c.messages[8], r#"[1,"r",{}]"#);
    assert_eq!(
        client.subscribe(Subscribe { options: Json::Null, ..subscribe(10) }, 10),
        Err(Error::InvalidField(Field::Options))
    );
    assert_eq!(client.context.subscriptions.len(), 1);
    assert_eq!(
        client.send(&Hello { realm: "r".to_string(), details: Json::Null }),
        Err(Error::InvalidField(Field::Details))
    );
}
