use wamp::error::{Error, Field};
use wamp::messages::{
    Abort, Call, Hello, Messages, Subscribed, Unsubscribed, WampError, WampErrorEvent, Welcome,
};
use wamp::value::{Json, Number};

fn tag(n: u64) -> Json {
    Json::Number(Number::PosInt(n))
}

fn empty() -> Json {
    Json::Object(vec![])
}

#[test]
fn a_welcome_is_read_by_its_tag() {
    let m = Messages::from_str(r#"[2,9129137332,{"roles":{"broker":{}}}]"#).unwrap();
    match m {
        Messages::Welcome(Welcome { session, details }) => {
            assert_eq!(session, 9129137332);
            assert_eq!(
                details,
                Json::Object(vec![(
                    "roles".to_string(),
                    Json::Object(vec![("broker".to_string(), empty())])
                )])
            );
        }
        other => panic!("{:?}", other),
    }
}

#[test]
fn an_unknown_tag_gives_an_extension() {
    let m = Messages::from_str(r#"[999,"anything",{"goes":[1,2]}]"#).unwrap();
    assert_eq!(
        m,
        Messages::Extension(vec![
            tag(999),
            Json::String("anything".to_string()),
            Json::Object(vec![("goes".to_string(), Json::Array(vec![tag(1), tag(2)]))]),
        ])
    );
    assert_eq!(Messages::from_str("[999]").unwrap(), Messages::Extension(vec![tag(999)]));
    assert_eq!(Messages::from_str("[0]").unwrap(), Messages::Extension(vec![tag(0)]));
    assert_eq!(Messages::from_str("[7,1]").unwrap(), Messages::Extension(vec![tag(7), tag(1)]));
    assert_eq!(m.id(), Some(999));
    assert_eq!(m.to_string().unwrap(), r#"[999,"anything",{"goes":[1,2]}]"#);
}

#[test]
fn a_sequence_without_an_unsigned_tag_is_refused() {
    assert_eq!(Messages::from_str("[]"), Err(Error::InvalidMessageEnumMember));
    assert_eq!(Messages::from_str(r#"["1"]"#), Err(Error::InvalidMessageEnumMember));
    assert_eq!(Messages::from_str("[-1]"), Err(Error::InvalidMessageEnumMember));
    assert_eq!(Messages::from_str("[1.0]"), Err(Error::InvalidMessageEnumMember));
    assert_eq!(Messages::from_str("[null]"), Err(Error::InvalidMessageEnumMember));
    assert_eq!(Messages::decode(&vec![]), Err(Error::InvalidMessageEnumMember));
    assert_eq!(Messages::from_str("1"), Err(Error::NotASequence));
    assert_eq!(Messages::from_str("{}"), Err(Error::NotASequence));
    assert!(matches!(Messages::from_str("[1"), Err(Error::SerdeJsonError(_))));
}

#[test]
fn a_known_tag_with_a_broken_layout_is_an_error() {
    assert_eq!(Messages::from_str("[35]"), Err(Error::MissingField(Field::RequestId)));
    assert_eq!(Messages::from_str("[2,1,[]]"), Err(Error::InvalidField(Field::Details)));
    assert_eq!(Messages::from_str("[33,1,2,3]"), Err(Error::TrailingElements));
}

#[test]
fn every_tag_selects_its_variant() {
    let cases: Vec<(&str, u64)> = vec![
        (r#"[1,"r",{}]"#, 1),
        (r#"[2,1,{}]"#, 2),
        (r#"[3,{},"x"]"#, 3),
        (r#"[4,"m",{}]"#, 4),
        (r#"[5,"s",{}]"#, 5),
        (r#"[6,{},"x"]"#, 6),
        (r#"[8,48,1,{},"e"]"#, 8),
        (r#"[16,1,{},"t"]"#, 16),
        (r#"[17,1,2]"#, 17),
        (r#"[32,1,{},"t"]"#, 32),
        (r#"[33,1,2]"#, 33),
        (r#"[34,1,2]"#, 34),
        (r#"[35,1]"#, 35),
        (r#"[36,1,2,{}]"#, 36),
        (r#"[48,1,{},"p"]"#, 48),
        (r#"[49,1,{}]"#, 49),
        (r#"[50,1,{}]"#, 50),
        (r#"[64,1,{},"p"]"#, 64),
        (r#"[65,1,2]"#, 65),
        (r#"[66,1,2]"#, 66),
        (r#"[67,1]"#, 67),
        (r#"[68,1,2,{}]"#, 68),
        (r#"[69,1,{}]"#, 69),
        (r#"[70,1,{}]"#, 70),
    ];
    for (text, id) in cases {
        let m = Messages::from_str(text).unwrap();
        assert!(!matches!(m, Messages::Extension(_)), "{}", text);
        assert_eq!(m.id(), Some(id));
        assert_eq!(m.to_string().unwrap(), text);
        assert_eq!(m.clone(), m);
    }
    assert!(matches!(Messages::from_str("[35,1]").unwrap(), Messages::Unsubscribed(Unsubscribed { request_id: 1 })));
    assert!(matches!(Messages::from_str("[33,1,2]").unwrap(), Messages::Subscribed(Subscribed { request_id: 1, subscription: 2 })));
}

#[test]
fn the_envelope_writes_what_its_message_writes() {
    let call = Call {
        request_id: 7814135,
        options: empty(),
        procedure: "com.myapp.user.new".to_string(),
        args: Json::Array(vec![Json::String("johnny".to_string())]),
        kwargs: Json::Null,
    };
    assert_eq!(
        Messages::Call(call).to_string().unwrap(),
        r#"[48,7814135,{},"com.myapp.user.new",["johnny"]]"#
    );
    let bad = Messages::Hello(Hello { realm: "r".to_string(), details: Json::Null });
    assert_eq!(bad.encode(), Err(Error::InvalidField(Field::Details)));
    assert_eq!(bad.to_string(), Err(Error::InvalidField(Field::Details)));
}

#[test]
fn the_kind_of_request_of_a_message() {
    let call = Messages::Call(Call {
        request_id: 1,
        options: empty(),
        procedure: "p".to_string(),
        args: Json::Null,
        kwargs: Json::Null,
    });
    assert_eq!(WampErrorEvent::try_from(call), Ok(WampErrorEvent::Call));
    let abort = Messages::Abort(Abort { details: empty(), reason: "x".to_string() });
    assert_eq!(
        WampErrorEvent::try_from(abort.clone()),
        Err(Error::NoSuchWampErrorType(abort))
    );
    let extension = Messages::Extension(vec![tag(32), tag(1)]);
    assert_eq!(WampErrorEvent::try_from(extension), Ok(WampErrorEvent::Subscribe));
    let nothing = Messages::Extension(vec![]);
    assert_eq!(
        WampErrorEvent::try_from(nothing.clone()),
        Err(Error::NoSuchWampErrorType(nothing))
    );
    let error = Messages::Error(WampError {
        event: WampErrorEvent::Call,
        request_id: 1,
        details: empty(),
        error: "e".to_string(),
    });
    assert_eq!(error.id(), Some(8));
    assert!(WampErrorEvent::try_from(error).is_err());
}
