use wamp::error::{Error, Field};
use wamp::messages::{
    from_str, to_string, Abort, Authenticate, Call, Cancel, Challenge, Event, Goodbye, Hello,
    Interrupt, Invocation, Publish, Published, Register, Registered, Subscribe, Subscribed,
    Unregister, Unregistered, Unsubscribe, Unsubscribed, WampError, WampErrorEvent, WampMessage,
    WampResult, Welcome, Yield,
};
use wamp::value::{Json, Number};

fn members(pairs: Vec<(&str, Json)>) -> Json {
    Json::Object(pairs.into_iter().map(|(k, v)| (k.to_string(), v)).collect())
}

fn unsigned(n: u64) -> Json {
    Json::Number(Number::PosInt(n))
}

fn string(s: &str) -> Json {
    Json::String(s.to_string())
}

/// The four pairs of arguments on the border of the rule for trailing fields.
fn boundary_arguments() -> Vec<(Json, Json)> {
    vec![
        (Json::Null, Json::Null),
        (Json::Array(vec![]), Json::Null),
        (Json::Null, Json::Object(vec![])),
        (Json::Array(vec![unsigned(1), unsigned(2)]), members(vec![("a", unsigned(1))])),
    ]
}

/// What a reader sees of positional arguments: the empty array in place of
/// null where keyword arguments follow.
fn as_read(args: &Json, kwargs: &Json) -> Json {
    if *args == Json::Null && *kwargs != Json::Null {
        Json::Array(vec![])
    } else {
        args.clone()
    }
}

#[test]
fn call_round_trips_on_the_boundary() {
    for (args, kwargs) in boundary_arguments() {
        let m = Call {
            request_id: 1,
            options: Json::Object(vec![]),
            procedure: "p".to_string(),
            args: args.clone(),
            kwargs: kwargs.clone(),
        };
        let back = Call::decode(&m.encode().unwrap()).unwrap();
        assert_eq!(back, Call { args: as_read(&args, &kwargs), ..m.clone() });
        let back: Call = from_str(&to_string(&m).unwrap()).unwrap();
        assert_eq!(back, Call { args: as_read(&args, &kwargs), ..m.clone() });
    }
}

#[test]
fn publish_round_trips_on_the_boundary() {
    for (args, kwargs) in boundary_arguments() {
        let m = Publish {
            request_id: 2,
            options: Json::Object(vec![]),
            topic: "t".to_string(),
            args: args.clone(),
            kwargs: kwargs.clone(),
        };
        let back = Publish::decode(&m.encode().unwrap()).unwrap();
        assert_eq!(back, Publish { args: as_read(&args, &kwargs), ..m.clone() });
    }
}

#[test]
fn event_round_trips_on_the_boundary() {
    for (args, kwargs) in boundary_arguments() {
        let m = Event {
            subscription: 3,
            publication: 4,
            details: Json::Object(vec![]),
            args: args.clone(),
            kwargs: kwargs.clone(),
        };
        let back = Event::decode(&m.encode().unwrap()).unwrap();
        assert_eq!(back, Event { args: as_read(&args, &kwargs), ..m.clone() });
    }
}

#[test]
fn result_round_trips_on_the_boundary() {
    for (args, kwargs) in boundary_arguments() {
        let m = WampResult {
            request_id: 5,
            details: Json::Object(vec![]),
            args: args.clone(),
            kwargs: kwargs.clone(),
        };
        let back = WampResult::decode(&m.encode().unwrap()).unwrap();
        assert_eq!(back, WampResult { args: as_read(&args, &kwargs), ..m.clone() });
    }
}

#[test]
fn invocation_round_trips_on_the_boundary() {
    for (args, kwargs) in boundary_arguments() {
        let m = Invocation {
            request_id: 6,
            registration: 7,
            details: Json::Object(vec![]),
            args: args.clone(),
            kwargs: kwargs.clone(),
        };
        let back = Invocation::decode(&m.encode().unwrap()).unwrap();
        assert_eq!(back, Invocation { args: as_read(&args, &kwargs), ..m.clone() });
    }
}

#[test]
fn yield_round_trips_on_the_boundary() {
    for (args, kwargs) in boundary_arguments() {
        let m = Yield {
            request_id: 8,
            options: Json::Object(vec![]),
            args: args.clone(),
            kwargs: kwargs.clone(),
        };
        let back = Yield::decode(&m.encode().unwrap()).unwrap();
        assert_eq!(back, Yield { args: as_read(&args, &kwargs), ..m.clone() });
    }
}

#[test]
fn messages_without_arguments_round_trip() {
    let details = members(vec![("k", string("v"))]);
    let hello = Hello { realm: "r".to_string(), details: details.clone() };
    assert_eq!(Hello::decode(&hello.encode().unwrap()).unwrap(), hello);
    let welcome = Welcome { session: 1, details: details.clone() };
    assert_eq!(Welcome::decode(&welcome.encode().unwrap()).unwrap(), welcome);
    let abort = Abort { details: details.clone(), reason: "x".to_string() };
    assert_eq!(Abort::decode(&abort.encode().unwrap()).unwrap(), abort);
    let challenge = Challenge { authmethod: "ticket".to_string(), details: details.clone() };
    assert_eq!(Challenge::decode(&challenge.encode().unwrap()).unwrap(), challenge);
    let authenticate = Authenticate { signature: "s".to_string(), details: details.clone() };
    assert_eq!(Authenticate::decode(&authenticate.encode().unwrap()).unwrap(), authenticate);
    let goodbye = Goodbye { details: details.clone(), reason: "bye".to_string() };
    assert_eq!(Goodbye::decode(&goodbye.encode().unwrap()).unwrap(), goodbye);
    let error = WampError {
        event: WampErrorEvent::Call,
        request_id: 9,
        details: details.clone(),
        error: "wamp.error.canceled".to_string(),
    };
    assert_eq!(WampError::decode(&error.encode().unwrap()).unwrap(), error);
    let published = Published { request_id: 1, publication: 2 };
    assert_eq!(Published::decode(&published.encode().unwrap()).unwrap(), published);
    let subscribe = Subscribe { request_id: 1, options: details.clone(), topic: "t".to_string() };
    assert_eq!(Subscribe::decode(&subscribe.encode().unwrap()).unwrap(), subscribe);
    let subscribed = Subscribed { request_id: 1, subscription: 2 };
    assert_eq!(Subscribed::decode(&subscribed.encode().unwrap()).unwrap(), subscribed);
    let unsubscribe = Unsubscribe { request_id: 1, subscription: 2 };
    assert_eq!(Unsubscribe::decode(&unsubscribe.encode().unwrap()).unwrap(), unsubscribe);
    let unsubscribed = Unsubscribed { request_id: 1 };
    assert_eq!(Unsubscribed::decode(&unsubscribed.encode().unwrap()).unwrap(), unsubscribed);
    let cancel = Cancel { request_id: 1, options: details.clone() };
    assert_eq!(Cancel::decode(&cancel.encode().unwrap()).unwrap(), cancel);
    let register =
        Register { request_id: 1, options: details.clone(), procedure: "p".to_string() };
    assert_eq!(Register::decode(&register.encode().unwrap()).unwrap(), register);
    let registered = Registered { request_id: 1, registration: 2 };
    assert_eq!(Registered::decode(&registered.encode().unwrap()).unwrap(), registered);
    let unregister = Unregister { request_id: 1, registration: 2 };
    assert_eq!(Unregister::decode(&unregister.encode().unwrap()).unwrap(), unregister);
    let unregistered = Unregistered { request_id: 1 };
    assert_eq!(Unregistered::decode(&unregistered.encode().unwrap()).unwrap(), unregistered);
    let interrupt = Interrupt { request_id: 1, options: details.clone() };
    assert_eq!(Interrupt::decode(&interrupt.encode().unwrap()).unwrap(), interrupt);
}

#[test]
fn every_type_refuses_the_tag_of_another() {
    // A sequence that is long enough for every layout, under a tag of no type.
    let wrong = vec![
        unsigned(7),
        unsigned(1),
        unsigned(2),
        Json::Object(vec![]),
        string("x"),
        Json::Null,
    ];
    fn mismatch(expected: u64) -> Error {
        Error::InvalidId { expected, actual: 7 }
    }
    assert_eq!(Hello::decode(&wrong), Err(mismatch(1)));
    assert_eq!(Welcome::decode(&wrong), Err(mismatch(2)));
    assert_eq!(Abort::decode(&wrong), Err(mismatch(3)));
    assert_eq!(Challenge::decode(&wrong), Err(mismatch(4)));
    assert_eq!(Authenticate::decode(&wrong), Err(mismatch(5)));
    assert_eq!(Goodbye::decode(&wrong), Err(mismatch(6)));
    assert_eq!(WampError::decode(&wrong), Err(mismatch(8)));
    assert_eq!(Publish::decode(&wrong), Err(mismatch(16)));
    assert_eq!(Published::decode(&wrong), Err(mismatch(17)));
    assert_eq!(Subscribe::decode(&wrong), Err(mismatch(32)));
    assert_eq!(Subscribed::decode(&wrong), Err(mismatch(33)));
    assert_eq!(Unsubscribe::decode(&wrong), Err(mismatch(34)));
    assert_eq!(Unsubscribed::decode(&wrong), Err(mismatch(35)));
    assert_eq!(Event::decode(&wrong), Err(mismatch(36)));
    assert_eq!(Call::decode(&wrong), Err(mismatch(48)));
    assert_eq!(Cancel::decode(&wrong), Err(mismatch(49)));
    assert_eq!(WampResult::decode(&wrong), Err(mismatch(50)));
    assert_eq!(Register::decode(&wrong), Err(mismatch(64)));
    assert_eq!(Registered::decode(&wrong), Err(mismatch(65)));
    assert_eq!(Unregister::decode(&wrong), Err(mismatch(66)));
    assert_eq!(Unregistered::decode(&wrong), Err(mismatch(67)));
    assert_eq!(Invocation::decode(&wrong), Err(mismatch(68)));
    assert_eq!(Interrupt::decode(&wrong), Err(mismatch(69)));
    assert_eq!(Yield::decode(&wrong), Err(mismatch(70)));
}

#[test]
fn the_tags_of_the_catalogue() {
    assert_eq!(
        [
            Hello::ID, Welcome::ID, Abort::ID, Challenge::ID, Authenticate::ID, Goodbye::ID,
            WampError::ID, Publish::ID, Published::ID, Subscribe::ID, Subscribed::ID,
            Unsubscribe::ID, Unsubscribed::ID, Event::ID, Call::ID, Cancel::ID, WampResult::ID,
            Register::ID, Registered::ID, Unregister::ID, Unregistered::ID, Invocation::ID,
            Interrupt::ID, Yield::ID,
        ],
        [1, 2, 3, 4, 5, 6, 8, 16, 17, 32, 33, 34, 35, 36, 48, 49, 50, 64, 65, 66, 67, 68, 69, 70]
    );
    assert_eq!(<Call as WampMessage>::ID, 48);
    assert_eq!(<Yield as WampMessage>::ID, 70);
    assert_eq!(<Hello as WampMessage>::ID, 1);
}

#[test]
fn trailing_fields_are_written_by_the_rule() {
    let call = |args: Json, kwargs: Json| Call {
        request_id: 1,
        options: Json::Object(vec![]),
        procedure: "p".to_string(),
        args,
        kwargs,
    };
    assert_eq!(to_string(&call(Json::Null, Json::Null)).unwrap(), r#"[48,1,{},"p"]"#);
    assert_eq!(
        to_string(&call(Json::Null, Json::Object(vec![]))).unwrap(),
        r#"[48,1,{},"p",[],{}]"#
    );
    assert_eq!(to_string(&call(Json::Array(vec![]), Json::Null)).unwrap(), r#"[48,1,{},"p",[]]"#);
    assert_eq!(
        to_string(&call(Json::Array(vec![unsigned(1)]), members(vec![("a", unsigned(1))])))
            .unwrap(),
        r#"[48,1,{},"p",[1],{"a":1}]"#
    );
}

#[test]
fn missing_trailing_fields_are_read_as_null() {
    let call: Call = from_str(r#"[48,1,{},"p"]"#).unwrap();
    assert_eq!(call.args, Json::Null);
    assert_eq!(call.kwargs, Json::Null);
    let call: Call = from_str(r#"[48,1,{},"p",[3]]"#).unwrap();
    assert_eq!(call.args, Json::Array(vec![unsigned(3)]));
    assert_eq!(call.kwargs, Json::Null);
    let call: Call = from_str(r#"[48,1,{},"p",null,{"a":1}]"#).unwrap();
    assert_eq!(call.args, Json::Null);
    assert_eq!(call.kwargs, members(vec![("a", unsigned(1))]));
}

#[test]
fn the_writer_refuses_fields_of_the_wrong_shape() {
    let call = Call {
        request_id: 1,
        options: Json::Array(vec![]),
        procedure: "p".to_string(),
        args: Json::Null,
        kwargs: Json::Null,
    };
    assert_eq!(call.encode(), Err(Error::InvalidField(Field::Options)));
    assert_eq!(to_string(&call), Err(Error::InvalidField(Field::Options)));
    let call = Call { options: Json::Object(vec![]), args: Json::Object(vec![]), ..call };
    assert_eq!(call.encode(), Err(Error::InvalidField(Field::Args)));
    let call = Call { args: Json::Null, kwargs: Json::Array(vec![]), ..call };
    assert_eq!(call.encode(), Err(Error::InvalidField(Field::Kwargs)));
    let welcome = Welcome { session: 1, details: Json::Null };
    assert_eq!(welcome.encode(), Err(Error::InvalidField(Field::Details)));
    let event = Event {
        subscription: 1,
        publication: 2,
        details: Json::Object(vec![]),
        args: unsigned(1),
        kwargs: Json::Null,
    };
    assert_eq!(event.encode(), Err(Error::InvalidField(Field::Args)));
    let event = Event { details: Json::Array(vec![]), ..event };
    assert_eq!(event.encode(), Err(Error::InvalidField(Field::Details)));
    let subscribe = Subscribe { request_id: 1, options: string("o"), topic: "t".to_string() };
    assert_eq!(subscribe.encode(), Err(Error::InvalidField(Field::Options)));
    let register = Register { request_id: 1, options: Json::Null, procedure: "p".to_string() };
    assert_eq!(register.encode(), Err(Error::InvalidField(Field::Options)));
    let error = WampError {
        event: WampErrorEvent::Call,
        request_id: 1,
        details: Json::Bool(true),
        error: "e".to_string(),
    };
    assert_eq!(error.encode(), Err(Error::InvalidField(Field::Details)));
}

#[test]
fn the_reader_names_the_field_that_is_wrong() {
    let read = |text: &str| -> Result<Call, Error> { from_str(text) };
    assert_eq!(read("[]"), Err(Error::MissingField(Field::MessageId)));
    assert_eq!(read(r#"["48"]"#), Err(Error::InvalidField(Field::MessageId)));
    assert_eq!(read("[-48]"), Err(Error::InvalidField(Field::MessageId)));
    assert_eq!(read("[48]"), Err(Error::MissingField(Field::RequestId)));
    assert_eq!(read(r#"[48,"1"]"#), Err(Error::InvalidField(Field::RequestId)));
    assert_eq!(read("[48,1.5]"), Err(Error::InvalidField(Field::RequestId)));
    assert_eq!(read("[48,1]"), Err(Error::MissingField(Field::Options)));
    assert_eq!(read("[48,1,[]]"), Err(Error::InvalidField(Field::Options)));
    assert_eq!(read("[48,1,7]"), Err(Error::InvalidField(Field::Options)));
    assert_eq!(read("[48,1,{}]"), Err(Error::MissingField(Field::Procedure)));
    assert_eq!(read("[48,1,{},2]"), Err(Error::InvalidField(Field::Procedure)));
    assert_eq!(read(r#"[48,1,{},"p",{}]"#), Err(Error::InvalidField(Field::Args)));
    assert_eq!(read(r#"[48,1,{},"p",[],[]]"#), Err(Error::InvalidField(Field::Kwargs)));
    assert_eq!(read(r#"[48,1,{},"p",[],{},0]"#), Err(Error::TrailingElements));
    assert_eq!(
        from_str::<Unsubscribed>("[35,1,2]"),
        Err(Error::TrailingElements)
    );
    assert_eq!(
        from_str::<Abort>(r#"[3,{}]"#),
        Err(Error::MissingField(Field::Reason))
    );
    assert_eq!(
        from_str::<Hello>(r#"[1,{},{}]"#),
        Err(Error::InvalidField(Field::Realm))
    );
    assert_eq!(
        from_str::<Welcome>(r#"[2,"s",{}]"#),
        Err(Error::InvalidField(Field::Session))
    );
    assert_eq!(
        from_str::<Event>(r#"[36,1]"#),
        Err(Error::MissingField(Field::Publication))
    );
    assert_eq!(
        from_str::<Registered>(r#"[65,1]"#),
        Err(Error::MissingField(Field::Registration))
    );
    assert_eq!(
        from_str::<Subscribed>(r#"[33,1,null]"#),
        Err(Error::InvalidField(Field::Subscription))
    );
}

#[test]
fn a_text_that_is_no_json_is_refused() {
    assert!(matches!(from_str::<Call>("{"), Err(Error::SerdeJsonError(_))));
    assert!(matches!(from_str::<Call>(""), Err(Error::SerdeJsonError(_))));
    assert!(matches!(from_str::<Call>("[48,1,{},\"p\"] x"), Err(Error::SerdeJsonError(_))));
    assert!(matches!(from_str::<Call>("[48,1,{},\"p\""), Err(Error::SerdeJsonError(_))));
    match from_str::<Call>("[1,") {
        Err(Error::SerdeJsonError(reason)) => assert!(!reason.is_empty()),
        other => panic!("{:?}", other),
    }
}

#[test]
fn a_text_that_holds_no_array_is_refused() {
    assert_eq!(from_str::<Call>(r#"{"a":1}"#), Err(Error::NotASequence));
    assert_eq!(from_str::<Call>("48"), Err(Error::NotASequence));
    assert_eq!(from_str::<Call>("null"), Err(Error::NotASequence));
    assert_eq!(from_str::<Call>(r#""[48]""#), Err(Error::NotASequence));
}

#[test]
fn an_error_names_one_of_eight_kinds_of_request() {
    let kinds = [
        (WampErrorEvent::Unsubscribe, 34),
        (WampErrorEvent::Subscribe, 32),
        (WampErrorEvent::Publish, 16),
        (WampErrorEvent::Register, 64),
        (WampErrorEvent::Unregister, 66),
        (WampErrorEvent::Invocation, 68),
        (WampErrorEvent::Cancel, 49),
        (WampErrorEvent::Call, 48),
    ];
    for (kind, tag) in kinds {
        assert_eq!(kind.id(), tag);
        assert_eq!(WampErrorEvent::from_id(tag), Some(kind));
        let text = format!(r#"[8,{},5,{{}},"wamp.error.canceled"]"#, tag);
        let error: WampError = from_str(&text).unwrap();
        assert_eq!(error.event, kind);
        assert_eq!(to_string(&error).unwrap(), text);
    }
    assert_eq!(WampErrorEvent::from_id(8), None);
    assert_eq!(WampErrorEvent::from_id(0), None);
}

#[test]
fn an_error_for_no_kind_of_request_is_kept_as_it_came() {
    let text = r#"[8,33,5,{},"wamp.error.canceled"]"#;
    let raw = vec![
        unsigned(8),
        unsigned(33),
        unsigned(5),
        Json::Object(vec![]),
        string("wamp.error.canceled"),
    ];
    assert_eq!(
        from_str::<WampError>(text),
        Err(Error::NoSuchWampErrorType(wamp::messages::Messages::Extension(raw)))
    );
    assert_eq!(from_str::<WampError>("[8]"), Err(Error::MissingField(Field::Event)));
    assert_eq!(from_str::<WampError>(r#"[8,"32"]"#), Err(Error::InvalidField(Field::Event)));
    assert_eq!(
        from_str::<WampError>(r#"[8,32,5,[],"e"]"#),
        Err(Error::InvalidField(Field::Details))
    );
    assert_eq!(
        from_str::<WampError>(r#"[8,32,5,{}]"#),
        Err(Error::MissingField(Field::ErrorUri))
    );
}

#[test]
fn payloads_pass_through_the_text_unchanged() {
    let text = r#"[48,18446744073709551615,{"deep":{"list":[true,false,null,-3,2.5,"s",{"x":[]}]}},"p"]"#;
    let call: Call = from_str(text).unwrap();
    assert_eq!(call.request_id, u64::MAX);
    assert_eq!(
        call.options,
        members(vec![(
            "deep",
            members(vec![(
                "list",
                Json::Array(vec![
                    Json::Bool(true),
                    Json::Bool(false),
                    Json::Null,
                    Json::Number(Number::NegInt(-3)),
                    Json::Number(Number::Float("2.5".to_string())),
                    string("s"),
                    members(vec![("x", Json::Array(vec![]))]),
                ]),
            )]),
        )])
    );
    assert_eq!(to_string(&call).unwrap(), text);
}

#[test]
fn strings_are_escaped_in_the_text() {
    let hello = Hello { realm: "a\"b\\c\n".to_string(), details: Json::Object(vec![]) };
    let text = to_string(&hello).unwrap();
    assert_eq!(text, r#"[1,"a\"b\\c\n",{}]"#);
    assert_eq!(from_str::<Hello>(&text).unwrap(), hello);
}
