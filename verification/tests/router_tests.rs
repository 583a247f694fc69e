use js_engine::error::Error;
use js_engine::msg_channel::{Awaited, MsgChannel, Received};
use js_engine::router::{after_wait, full_route_name, not_found, Echo, Processor, Router, Stop};
use js_engine::value::{JsonValue, Member, Number, Value};

struct Fails;

impl Processor for Fails {
    fn call(&self, _args: JsonValue) -> Result<JsonValue, String> {
        Err("no".to_string())
    }
}

enum Handler {
    Echo,
    Fixed(u64),
    Fails,
}

impl Processor for Handler {
    fn call(&self, args: JsonValue) -> Result<JsonValue, String> {
        match self {
            Handler::Echo => Ok(args),
            Handler::Fixed(n) => Ok(JsonValue(Value::Number(Number::PosInt(*n)))),
            Handler::Fails => Err("handler failed".to_string()),
        }
    }
}

fn s(text: &str) -> String {
    text.to_string()
}

fn a_is_one() -> JsonValue {
    JsonValue(Value::Object(vec![Member {
        key: s("a"),
        value: Value::Number(Number::PosInt(1)),
    }]))
}

#[test]
fn route_names_join_namespace_and_name() {
    assert_eq!(full_route_name(&s("auth"), &s("create_token")), "auth.create_token");
    assert_eq!(full_route_name(&s(""), &s("")), ".");
    assert_eq!(not_found(&s("x"), &s("y")), "x.y not found");
}

#[test]
fn a_registered_handler_answers() {
    let router = Router::new(vec![(s("auth"), s("create_token"), Echo)]).ok().unwrap();
    assert_eq!(router.len(), 1);
    let reply = router.answer(&s("auth"), &s("create_token"), a_is_one());
    assert_eq!(reply, Ok(a_is_one()));
}

#[test]
fn each_route_leads_to_its_own_handler() {
    let router = Router::new(vec![
        (s("a"), s("x"), Handler::Fixed(1)),
        (s("a"), s("y"), Handler::Fixed(2)),
        (s("b"), s("x"), Handler::Fixed(3)),
        (s("b"), s("echo"), Handler::Echo),
        (s("b"), s("fails"), Handler::Fails),
    ])
    .ok()
    .unwrap();
    let fixed = |n: u64| Ok(JsonValue(Value::Number(Number::PosInt(n))));
    assert_eq!(router.answer(&s("a"), &s("x"), JsonValue::null()), fixed(1));
    assert_eq!(router.answer(&s("a"), &s("y"), JsonValue::null()), fixed(2));
    assert_eq!(router.answer(&s("b"), &s("x"), JsonValue::null()), fixed(3));
    assert_eq!(router.answer(&s("b"), &s("echo"), a_is_one()), Ok(a_is_one()));
    assert_eq!(
        router.answer(&s("b"), &s("fails"), JsonValue::null()),
        Err(s("handler failed"))
    );
    assert!(router.lookup(&s("a"), &s("x")).is_some());
    assert!(router.lookup(&s("x"), &s("a")).is_none());
}

#[test]
fn an_unregistered_route_is_not_found() {
    let router = Router::new(vec![(s("auth"), s("create_token"), Echo)]).ok().unwrap();
    let reply = router.answer(&s("x"), &s("y"), JsonValue::empty_object());
    let message = reply.unwrap_err();
    assert_eq!(message, "x.y not found");
    assert!(message.contains("x.y"));
    assert!(message.contains("not found"));
    let again = router.answer(&s("auth"), &s("create_token"), a_is_one());
    assert_eq!(again, Ok(a_is_one()));
}

#[test]
fn namespace_and_name_are_matched_as_a_pair() {
    let router = Router::new(vec![(s("a.b"), s("c"), Echo)]).ok().unwrap();
    assert!(router.answer(&s("a"), &s("b.c"), JsonValue::null()).is_err());
    assert!(router.answer(&s("a.b"), &s("c"), JsonValue::null()).is_ok());
}

#[test]
fn an_empty_table_finds_nothing() {
    let router: Router<Echo> = Router::new(vec![]).ok().unwrap();
    assert_eq!(router.len(), 0);
    assert_eq!(router.answer(&s("a"), &s("b"), JsonValue::null()), Err(s("a.b not found")));
}

#[test]
fn a_route_registered_twice_is_refused() {
    let made = Router::new(vec![
        (s("a"), s("x"), Handler::Fixed(1)),
        (s("b"), s("y"), Handler::Fixed(2)),
        (s("a"), s("x"), Handler::Fixed(3)),
        (s("b"), s("y"), Handler::Fixed(4)),
    ]);
    match made {
        Err(Error::DuplicateRoute { route }) => assert_eq!(route, "a.x"),
        _ => panic!("the duplicate was not refused"),
    }
}

#[test]
fn a_request_is_answered_through_its_mailbox() {
    let router = Router::new(vec![(s("auth"), s("create_token"), Echo)]).ok().unwrap();
    let (msg, res) = MsgChannel::new(s("auth"), s("create_token"), a_is_one());
    assert_eq!(msg.namespace, "auth");
    assert_eq!(msg.name, "create_token");
    assert_eq!(msg.args, a_is_one());
    assert!(router.process(msg));
    match res.recv_timeout(500) {
        Awaited::Message(reply) => assert_eq!(reply, Ok(a_is_one())),
        other => panic!("unexpected {:?}", other),
    }
}

#[test]
fn a_request_to_a_missing_route_is_answered_with_the_failure() {
    let router = Router::new(vec![(s("auth"), s("create_token"), Fails)]).ok().unwrap();
    let (msg, res) = MsgChannel::new(s("x"), s("y"), JsonValue::empty_object());
    assert!(router.process(msg));
    match res.recv_timeout(500) {
        Awaited::Message(reply) => assert_eq!(reply, Err(s("x.y not found"))),
        other => panic!("unexpected {:?}", other),
    }
}

#[test]
fn a_reply_that_nobody_waits_for_is_let_pass() {
    let router = Router::new(vec![(s("auth"), s("create_token"), Echo)]).ok().unwrap();
    let (msg, res) = MsgChannel::new(s("auth"), s("create_token"), a_is_one());
    drop(res);
    assert!(!router.process(msg));
    let (msg, res) = MsgChannel::new(s("auth"), s("create_token"), a_is_one());
    assert!(router.process(msg));
    assert!(matches!(res.recv_timeout(100), Awaited::Message(Ok(_))));
}

#[test]
fn a_dropped_request_closes_its_mailbox() {
    let (msg, res) = MsgChannel::new(s("a"), s("b"), JsonValue::null());
    drop(msg);
    assert!(matches!(res.recv_timeout(100), Awaited::Closed));
}

#[test]
fn waiting_on_an_unanswered_request_times_out() {
    let (msg, res) = MsgChannel::new(s("a"), s("b"), JsonValue::null());
    assert!(matches!(res.recv_timeout(20), Awaited::TimedOut));
    drop(msg);
}

#[test]
fn serving_takes_requests_in_arrival_order() {
    let router = Router::new(vec![(s("n"), s("echo"), Echo)]).ok().unwrap();
    let (tx, rx) = flume::bounded::<MsgChannel>(8);
    let mut waiting = Vec::new();
    for i in 0..5u64 {
        let (msg, res) =
            MsgChannel::new(s("n"), s("echo"), JsonValue(Value::Number(Number::PosInt(i))));
        tx.send(msg).ok().unwrap();
        waiting.push(res);
    }
    assert_eq!(router.serve(&rx, 3, 50), (3, Stop::Limit));
    assert!(matches!(waiting[3].recv_timeout(10), Awaited::TimedOut));
    assert_eq!(router.serve(&rx, 10, 50), (2, Stop::Idle));
    for (i, res) in waiting.iter().enumerate() {
        match res.recv_timeout(100) {
            Awaited::Message(reply) => {
                assert_eq!(reply, Ok(JsonValue(Value::Number(Number::PosInt(i as u64)))))
            }
            other => panic!("unexpected {:?}", other),
        }
    }
    drop(tx);
    assert_eq!(router.serve(&rx, 10, 50), (0, Stop::Closed));
    assert_eq!(router.serve(&rx, 0, 50), (0, Stop::Limit));
}

#[test]
fn the_router_goes_on_after_a_request_and_stops_otherwise() {
    let (msg, _res) = MsgChannel::new(s("a"), s("b"), JsonValue::null());
    assert_eq!(after_wait(&Received::Message(msg)), None);
    assert_eq!(after_wait(&Received::TimedOut), Some(Stop::Idle));
    assert_eq!(after_wait(&Received::Closed), Some(Stop::Closed));
}

#[test]
fn a_closed_and_drained_queue_ends_serving() {
    let router = Router::new(vec![(s("n"), s("echo"), Echo)]).ok().unwrap();
    let (tx, rx) = flume::bounded::<MsgChannel>(4);
    let (first, first_reply) = MsgChannel::new(s("n"), s("echo"), JsonValue::null());
    let (second, second_reply) = MsgChannel::new(s("n"), s("echo"), JsonValue::null());
    tx.send(first).ok().unwrap();
    tx.send(second).ok().unwrap();
    drop(first_reply);
    drop(tx);
    assert_eq!(router.serve(&rx, 10, 50), (2, Stop::Closed));
    assert!(matches!(second_reply.recv_timeout(100), Awaited::Message(Ok(_))));
    assert_eq!(router.serve(&rx, 10, 50), (0, Stop::Closed));
}

#[test]
fn an_idle_queue_pauses_serving() {
    let router = Router::new(vec![(s("n"), s("echo"), Echo)]).ok().unwrap();
    let (tx, rx) = flume::bounded::<MsgChannel>(4);
    assert_eq!(router.serve(&rx, 10, 20), (0, Stop::Idle));
    let (msg, reply) = MsgChannel::new(s("n"), s("echo"), JsonValue::null());
    tx.send(msg).ok().unwrap();
    assert_eq!(router.serve(&rx, 10, 20), (1, Stop::Idle));
    assert!(matches!(reply.recv_timeout(100), Awaited::Message(Ok(_))));
}
