use wamp::error::{CloseUri, WampErrorUri};
use wamp::factories::{increment, subscribe, subscription_contains, unsubscribe, Increment};
use wamp::messages::{
    Abort, Call, Event, Goodbye, Hello, MessageDirection, Publish, Register, Subscribe,
    Unsubscribe, WampError, WampMessage, Welcome,
};
use wamp::request::WampRequest;
use wamp::roles::Roles;
use wamp::value::{clone_sequence, Json, Number};

#[test]
fn the_counter_steps_by_one() {
    let mut number = 0u64;
    assert_eq!(increment(&mut number), 1);
    assert_eq!(increment(&mut number), 2);
    assert_eq!(number, 2);
    let mut high = u64::MAX - 1;
    assert_eq!(increment(&mut high), u64::MAX);
}

#[test]
fn request_ids_are_not_handed_out_twice() {
    let mut ids = Increment::new();
    assert_eq!(ids.0, 0);
    let a = ids.get_request_id();
    let b = ids.get_request_id();
    let c = ids.get_request_id();
    assert_eq!((a, b, c), (1, 2, 3));
}

#[test]
fn topics_are_added_found_and_removed() {
    let mut topics: Vec<String> = Vec::new();
    assert!(!subscription_contains(&topics, "a"));
    subscribe(&mut topics, "a");
    subscribe(&mut topics, "b");
    subscribe(&mut topics, "a");
    subscribe(&mut topics, "c");
    assert_eq!(topics, vec!["a", "b", "a", "c"]);
    assert!(subscription_contains(&topics, "a"));
    assert!(subscription_contains(&topics, "c"));
    assert!(!subscription_contains(&topics, "d"));
    unsubscribe(&mut topics, "a");
    assert_eq!(topics, vec!["b", "c"]);
    assert!(!subscription_contains(&topics, "a"));
    unsubscribe(&mut topics, "zz");
    assert_eq!(topics, vec!["b", "c"]);
    unsubscribe(&mut topics, "c");
    unsubscribe(&mut topics, "b");
    assert!(topics.is_empty());
}

#[test]
fn the_direction_tables() {
    let d = |receives, sends| MessageDirection { receives, sends };
    assert_eq!(Call::direction(Roles::Caller), d(false, true));
    assert_eq!(Call::direction(Roles::Callee), d(false, false));
    assert_eq!(Event::direction(Roles::Subscriber), d(true, false));
    assert_eq!(Event::direction(Roles::Broker), d(false, true));
    assert_eq!(Event::direction(Roles::Publisher), d(false, false));
    assert_eq!(WampError::direction(Roles::Callee), d(true, true));
    assert_eq!(WampError::direction(Roles::Broker), d(false, true));
    assert_eq!(Goodbye::direction(Roles::Subscriber), d(true, false));
    assert_eq!(Goodbye::direction(Roles::Dealer), d(true, true));
    assert_eq!(Abort::direction(Roles::Caller), d(true, false));
    assert_eq!(Publish::direction(Roles::Broker), d(true, false));
    assert_eq!(Publish::direction(Roles::Publisher), d(false, true));
    assert_eq!(Subscribe::direction(Roles::Subscriber), d(false, true));
    for role in [Roles::Callee, Roles::Caller, Roles::Publisher, Roles::Subscriber] {
        assert_eq!(Hello::direction(role), d(false, true));
        assert_eq!(Welcome::direction(role), d(true, false));
    }
    for role in [Roles::Dealer, Roles::Broker] {
        assert_eq!(Hello::direction(role), d(true, false));
        assert_eq!(Welcome::direction(role), d(false, true));
    }
    assert_eq!(Register::direction(Roles::Callee), d(false, true));
    assert_eq!(Register::direction(Roles::Dealer), d(true, false));
    assert_eq!(Unsubscribe::direction(Roles::Subscriber), d(false, true));
    assert_eq!(Unsubscribe::direction(Roles::Broker), d(true, false));
}

#[test]
fn values_tell_their_shape() {
    let array = Json::Array(vec![Json::Bool(true)]);
    let object = Json::Object(vec![("k".to_string(), Json::Null)]);
    assert!(Json::Null.is_null());
    assert!(!array.is_null());
    assert!(array.is_array());
    assert!(!object.is_array());
    assert!(object.is_object());
    assert!(!Json::Null.is_object());
    assert_eq!(Json::unsigned(7).as_u64(), Some(7));
    assert_eq!(Json::unsigned(7), Json::Number(Number::PosInt(7)));
    assert_eq!(Json::Number(Number::NegInt(-7)).as_u64(), None);
    assert_eq!(Json::Number(Number::Float("7.0".to_string())).as_u64(), None);
    assert_eq!(Json::String("7".to_string()).as_u64(), None);
    assert_eq!(Json::String("s".to_string()).as_str(), Some("s"));
    assert_eq!(Json::Null.as_str(), None);
    assert_eq!(Json::empty_array(), Json::Array(vec![]));
}

#[test]
fn a_copy_of_a_value_is_equal_to_it() {
    let value = Json::Object(vec![
        ("a".to_string(), Json::Array(vec![Json::unsigned(1), Json::Null, Json::Bool(false)])),
        (
            "b".to_string(),
            Json::Object(vec![(
                "c".to_string(),
                Json::Number(Number::Float("1e10".to_string())),
            )]),
        ),
        ("d".to_string(), Json::String("text".to_string())),
        ("e".to_string(), Json::Number(Number::NegInt(-1))),
    ]);
    assert_eq!(value.clone(), value);
    let sequence = vec![value.clone(), Json::Null, Json::unsigned(3)];
    assert_eq!(clone_sequence(&sequence), sequence);
    assert_eq!(Number::Float("2.5".to_string()).clone(), Number::Float("2.5".to_string()));
}

#[test]
fn the_names_of_the_protocol() {
    assert_ne!(WampErrorUri::NotAuthorized, WampErrorUri::NoSuchRealm);
    assert_ne!(CloseUri::SystemShutdown, CloseUri::GoodbyeAndOut);
    let request = WampRequest { uri: "wss://example.invalid/ws", protocol: "wamp.2.json" };
    assert_eq!(request, WampRequest { uri: "wss://example.invalid/ws", protocol: "wamp.2.json" });
    assert_eq!(request.protocol, "wamp.2.json");
}
