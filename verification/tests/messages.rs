use wamp::error::Error;
use wamp::messages::{
    from_str, to_string, Abort, Call, Cancel, Challenge, Event, Goodbye, Hello, Interrupt,
    Invocation, Messages, Publish, Published, Register, Registered, Subscribe, Subscribed,
    Unregister, Unregistered, Unsubscribe, Unsubscribed, WampError, WampErrorEvent, WampResult,
    Welcome, Yield,
};
use wamp::value::{Json, Number};

fn text(s: &str) -> Json {
    Json::String(s.to_string())
}

fn number(n: u64) -> Json {
    Json::Number(Number::PosInt(n))
}

fn object(members: Vec<(&str, Json)>) -> Json {
    Json::Object(members.into_iter().map(|(k, v)| (k.to_string(), v)).collect())
}

fn john_doe() -> Json {
    object(vec![("firstname", text("John")), ("surname", text("Doe"))])
}

#[test]
fn abort_raw_str() {
    let data = r#"[3,{"message":"The realm does not exist."},"wamp.error.no_such_realm"]"#;
    let a: Abort = from_str(data).unwrap();
    println!("{:#?}", a);
    assert_eq!(a.reason, "wamp.error.no_such_realm");
}

#[test]
fn abort_obj_to_str() {
    let a = Abort {
        details: object(vec![("message", text("The realm does not exist."))]),
        reason: "wamp.error.no_such_realm".to_string(),
    };
    let data = r#"[3,{"message":"The realm does not exist."},"wamp.error.no_such_realm"]"#;
    let an = to_string(&a).unwrap();
    assert!(data == an, "{data} == {an}")
}

#[test]
fn serde() {
    let a = Call {
        request_id: 7814135,
        options: object(vec![]),
        procedure: "com.myapp.user.new".to_string(),
        args: Json::Array(vec![text("johnny")]),
        kwargs: john_doe(),
    };
    let data = r#"[48,7814135,{},"com.myapp.user.new",["johnny"],{"firstname":"John","surname":"Doe"}]"#;
    let an = to_string(&a).unwrap();
    assert_eq!(data, an);
    let data: Call = from_str(data).unwrap();
    assert_eq!(a, data)
}

#[test]
fn call_raw_str() {
    let data = r#"[48,7814135,{},"com.myapp.user.new",["johnny"],{"firstname":"John","surname":"Doe"}]"#;
    let a: Call = from_str(data).unwrap();
    println!("{:#?}", a);
    assert_eq!(a.request_id, 7814135);
    assert_eq!(a.procedure, "com.myapp.user.new");
}

#[test]
fn call_obj_to_str() {
    let a = Call {
        request_id: 7814135,
        options: object(vec![]),
        procedure: "com.myapp.user.new".to_string(),
        args: Json::Array(vec![text("johnny")]),
        kwargs: john_doe(),
    };
    let data = r#"[48,7814135,{},"com.myapp.user.new",["johnny"],{"firstname":"John","surname":"Doe"}]"#;
    let an = to_string(&a).unwrap();
    assert_eq!(data, an)
}

#[test]
fn cancel_test() {
    let d1 = r#"[49,9129132,{}]"#;
    let c1 = Cancel { request_id: 9129132, options: object(vec![]) };
    assert_eq!(c1, from_str(d1).unwrap());
    assert_eq!(d1, to_string(&c1).unwrap());
}

#[test]
fn cancel_raw_str() {
    // The sequence carries the tag of an abort, so it is no cancel.
    let data = r#"[3,{"message":"The realm does not exist."},"wamp.error.no_such_realm"]"#;
    let a: Result<Cancel, Error> = from_str(data);
    assert_eq!(a, Err(Error::InvalidId { expected: 49, actual: 3 }));
}

#[test]
fn cancel_obj_to_str() {
    let a = Cancel {
        options: object(vec![("message", text("The realm does not exist."))]),
        request_id: 1,
    };
    let data = r#"[3,{"message":"The realm does not exist."},"wamp.error.no_such_realm"]"#;
    let an = to_string(&a).unwrap();
    assert_ne!(data, an);
    assert_eq!(r#"[49,1,{"message":"The realm does not exist."}]"#, an)
}

#[test]
fn challenge_obj_to_str() {
    let a = Challenge {
        authmethod: "wampcra".to_string(),
        details: object(vec![(
            "challenge",
            object(vec![
                ("authid", text("peter")),
                ("authmethod", text("wampcra")),
                ("authprovider", text("userdb")),
                ("authrole", text("user")),
                ("nonce", text("LHRTC9zeOIrt_9U3")),
                ("session", number(3251278072152162)),
                ("timestamp", text("2014-06-22T16:36:25.448Z")),
            ]),
        )]),
    };
    let data = r#"[4,"wampcra",{"challenge":{"authid":"peter","authmethod":"wampcra","authprovider":"userdb","authrole":"user","nonce":"LHRTC9zeOIrt_9U3","session":3251278072152162,"timestamp":"2014-06-22T16:36:25.448Z"}}]"#;
    let an = to_string(&a).unwrap();
    assert_eq!(data, an)
}

#[test]
fn error_unsubscribe_test() {
    let data = r#"[8,34,85346237,{},"wamp.error.no_such_subscription"]"#;
    let un_e = WampError {
        event: WampErrorEvent::Unsubscribe,
        request_id: 85346237,
        details: object(vec![]),
        error: "wamp.error.no_such_subscription".to_string(),
    };
    let un_e_2: WampError = from_str(data).unwrap();
    assert_eq!(un_e, un_e_2);
    let data_2 = to_string(&un_e).unwrap();
    assert_eq!(data, data_2)
}

#[test]
fn event_test() {
    let d = r#"[36,5512315355,4429313566,{},[],{"color":"orange","sizes":[23,42,7]}]"#;
    let mut ed = Event {
        subscription: 5512315355,
        publication: 4429313566,
        details: object(vec![]),
        args: Json::Null,
        kwargs: object(vec![
            ("color", text("orange")),
            ("sizes", Json::Array(vec![number(23), number(42), number(7)])),
        ]),
    };
    let ed2: Event = from_str(d).unwrap();
    let d2 = to_string(&ed).unwrap();
    assert_ne!(ed, ed2);
    ed.args = Json::Array(vec![]);
    assert_eq!(ed, ed2);
    assert_eq!(d, d2);
}

#[test]
fn goodbye_test() {
    let d1 = r#"[6,{"message":"The host is shutting down now."},"wamp.close.system_shutdown"]"#;
    let g1 = Goodbye {
        details: object(vec![("message", text("The host is shutting down now."))]),
        reason: "wamp.close.system_shutdown".to_string(),
    };
    let d2 = to_string(&g1).unwrap();
    let g2: Goodbye = from_str(d1).unwrap();
    assert_eq!(d1, d2);
    assert_eq!(g1, g2);
}

#[test]
fn hello_test() {
    let d1 = r#"[1,"somerealm",{"roles":{"publisher":{},"subscriber":{}}}]"#;
    let g1 = Hello {
        details: object(vec![(
            "roles",
            object(vec![("publisher", object(vec![])), ("subscriber", object(vec![]))]),
        )]),
        realm: "somerealm".to_string(),
    };
    let d2 = to_string(&g1).unwrap();
    let g2: Hello = from_str(d1).unwrap();
    assert_eq!(d1, d2);
    assert_eq!(g1, g2);
}

#[test]
fn hello_to_enum() {
    let h = Hello { realm: "some.random.realm".to_string(), details: object(vec![]) };
    let s = to_string(&h).unwrap();
    let nh = Messages::from_str(&s).unwrap();
    if let Messages::Hello(nh) = nh {
        assert_eq!(nh, h)
    } else {
        panic!("Value is not a Hello message")
    }
}

#[test]
fn interrupt_test() {
    let d1 = r#"[69,3,{}]"#;
    let g1 = Interrupt { options: object(vec![]), request_id: 3 };
    let d2 = to_string(&g1).unwrap();
    assert_eq!(d1, d2);
    let g2: Interrupt = from_str(d1).unwrap();
    assert_eq!(g1, g2);
}

#[test]
fn invocation_test() {
    let d = r#"[68,6131533,9823529,{},["johnny"],{"firstname":"John","surname":"Doe"}]"#;
    let mut ed = Invocation {
        request_id: 6131533,
        registration: 9823529,
        details: object(vec![]),
        args: Json::Null,
        kwargs: john_doe(),
    };
    let ed2: Invocation = from_str(d).unwrap();
    assert_ne!(ed, ed2);
    ed.args = Json::Array(vec![text("johnny")]);
    assert_eq!(ed, ed2);
    let d2 = to_string(&ed).unwrap();
    assert_eq!(d, d2);
}

#[test]
fn publish_raw_str() {
    // A sequence with the tag of a call is no publication.
    let call = r#"[48,7814135,{},"com.myapp.user.new",["johnny"],{"firstname":"John","surname":"Doe"}]"#;
    let refused: Result<Publish, Error> = from_str(call);
    assert_eq!(refused, Err(Error::InvalidId { expected: 16, actual: 48 }));

    let d1 = r#"[16,7814135,{},"com.myapp.user.new",["johnny"],{"firstname":"John","surname":"Doe"}]"#;
    let mut sent = Publish {
        request_id: 7814135,
        options: object(vec![]),
        topic: "com.myapp.user.new".to_string(),
        args: Json::Null,
        kwargs: john_doe(),
    };
    let read: Publish = from_str(d1).unwrap();

    assert_ne!(sent, read);
    sent.args = Json::Array(vec![text("johnny")]);
    let d2 = to_string(&sent).unwrap();
    assert_eq!(sent, read);
    assert_eq!(d1, d2);
}

#[test]
fn published_test() {
    let d1 = r#"[17,239714735,4429313566]"#;
    let sent = Published { request_id: 239714735, publication: 4429313566 };
    assert_eq!(d1, to_string(&sent).unwrap());
    assert_eq!(from_str::<Published>(d1).unwrap(), sent);
}

#[test]
fn register_test() {
    let d1 = r#"[64,25349185,{},"com.myapp.myprocedure1"]"#;
    let r1 = Register {
        request_id: 25349185,
        options: object(vec![]),
        procedure: "com.myapp.myprocedure1".to_string(),
    };
    assert_eq!(d1, to_string(&r1).unwrap());
    assert_eq!(r1, from_str::<Register>(d1).unwrap())
}

#[test]
fn registered_test() {
    let d1 = r#"[65,25349185,2103333224]"#;
    let sent = Registered { request_id: 25349185, registration: 2103333224 };
    assert_eq!(d1, to_string(&sent).unwrap());
    assert_eq!(from_str::<Registered>(d1).unwrap(), sent);
}

#[test]
fn result_test() {
    let d1 = r#"[50,7814135,{},[],{"karma":10,"userid":123}]"#;
    let mut w1 = WampResult {
        request_id: 7814135,
        details: object(vec![]),
        args: Json::Null,
        kwargs: object(vec![("karma", number(10)), ("userid", number(123))]),
    };
    assert_ne!(from_str::<WampResult>(d1).unwrap(), w1);
    w1.args = Json::Array(vec![]);
    assert_eq!(from_str::<WampResult>(d1).unwrap(), w1);
    assert_eq!(to_string(&w1).unwrap(), d1);
}

#[test]
fn subscribe_test() {
    let d1 = r#"[32,713845233,{},"com.myapp.mytopic1"]"#;
    let r1 = Subscribe {
        request_id: 713845233,
        options: object(vec![]),
        topic: "com.myapp.mytopic1".to_string(),
    };
    assert_eq!(d1, to_string(&r1).unwrap());
    assert_eq!(r1, from_str::<Subscribe>(d1).unwrap())
}

#[test]
fn subscribed_test() {
    let d1 = r#"[33,713845233,5512315355]"#;
    let sent = Subscribed { request_id: 713845233, subscription: 5512315355 };
    assert_eq!(d1, to_string(&sent).unwrap());
    assert_eq!(from_str::<Subscribed>(d1).unwrap(), sent);
}

#[test]
fn unregister_test() {
    let d1 = r#"[66,788923562,2103333224]"#;
    let sent = Unregister { request_id: 788923562, registration: 2103333224 };
    assert_eq!(d1, to_string(&sent).unwrap());
    assert_eq!(from_str::<Unregister>(d1).unwrap(), sent);
    // White space between the elements is read, and never written.
    assert_eq!(from_str::<Unregister>("[66, 788923562, 2103333224]").unwrap(), sent);
}

#[test]
fn unregistered_test() {
    let d1 = r#"[67,788923562]"#;
    let sent = Unregistered { request_id: 788923562 };
    assert_eq!(d1, to_string(&sent).unwrap());
    assert_eq!(from_str::<Unregistered>(d1).unwrap(), sent);
}

#[test]
fn unsubscribe_test() {
    let d1 = r#"[34,85346237,5512315355]"#;
    let sent = Unsubscribe { request_id: 85346237, subscription: 5512315355 };
    assert_eq!(d1, to_string(&sent).unwrap());
    assert_eq!(from_str::<Unsubscribe>(d1).unwrap(), sent);
}

#[test]
fn unsubscribed_test() {
    let d1 = r#"[35,85346237]"#;
    let sent = Unsubscribed { request_id: 85346237 };
    assert_eq!(d1, to_string(&sent).unwrap());
    assert_eq!(from_str::<Unsubscribed>(d1).unwrap(), sent);
}

#[test]
fn welcome_test() {
    let d1 = r#"[2,9129137332,{"roles":{"broker":{}}}]"#;
    let w1 = Welcome {
        session: 9129137332,
        details: object(vec![("roles", object(vec![("broker", object(vec![]))]))]),
    };
    assert_eq!(w1, from_str(d1).unwrap());
    assert_eq!(d1, to_string(&w1).unwrap());
}

#[test]
fn yield_test() {
    let d1 = r#"[70,6131533,{},[],{"karma":10,"userid":123}]"#;
    let mut w1 = Yield {
        request_id: 6131533,
        options: object(vec![]),
        args: Json::Null,
        kwargs: object(vec![("karma", number(10)), ("userid", number(123))]),
    };
    assert_ne!(from_str::<Yield>(d1).unwrap(), w1);
    w1.args = Json::Array(vec![]);
    assert_eq!(from_str::<Yield>(d1).unwrap(), w1);
    assert_eq!(to_string(&w1).unwrap(), d1);
}
