use actor_client::backoff::Backoff;
use actor_client::connection::{action_outcome, after_wait, is_ephemeral, Dispatch, LoopStep, Outbound, Session, WaitOutcome};
use actor_client::drivers::check_transport;
use actor_client::protocol::{ActionResponse, Error, Event, Init, ToClient, ToClientBody, ToServer, ToServerBody};
use actor_client::{ClientError, TransportKind};

fn init(a: &str, c: &str, t: &str) -> ToClient {
    ToClient {
        body: ToClientBody::Init(Init {
            actor_id: a.to_string(),
            connection_id: c.to_string(),
            connection_token: t.to_string(),
        }),
    }
}

fn response(id: u64, output: Vec<u8>) -> ToClient {
    ToClient { body: ToClientBody::ActionResponse(ActionResponse { id, output }) }
}

fn action_id(m: &ToServer) -> Option<u64> {
    match &m.body {
        ToServerBody::ActionRequest(r) => Some(r.id),
        _ => None,
    }
}

fn subscribed_name(m: &ToServer) -> Option<String> {
    match &m.body {
        ToServerBody::SubscriptionRequest(r) if r.subscribe => Some(r.event_name.clone()),
        _ => None,
    }
}

#[test]
fn action_ids_increase_and_are_unique() {
    let mut s = Session::new();
    let mut ids = Vec::new();
    for i in 0..5 {
        let (id, _) = s.begin_action(format!("a{}", i), vec![0x80]).unwrap();
        ids.push(id);
        if i == 2 {
            s.on_message(init("a1", "c1", "t1"));
        }
    }
    assert_eq!(ids, vec![0, 1, 2, 3, 4]);
}

#[test]
fn replies_are_correlated_by_id_in_any_order() {
    let mut s = Session::new();
    s.on_message(init("a1", "c1", "t1"));
    let (a, _) = s.begin_action("a".to_string(), vec![0x80]).unwrap();
    let (b, _) = s.begin_action("b".to_string(), vec![0x80]).unwrap();
    let err = ToClient {
        body: ToClientBody::Error(Error {
            group: "g".to_string(),
            code: "c".to_string(),
            message: "m".to_string(),
            metadata: None,
            action_id: None,
        }),
    };
    assert!(matches!(s.on_message(err), Dispatch::ConnectionError(_)));
    match s.on_message(response(b, vec![2])) {
        Dispatch::Fulfil { id, response } => {
            assert_eq!(id, b);
            assert_eq!(response.output, vec![2]);
        }
        _ => panic!("expected the waiter of b"),
    }
    match s.on_message(response(a, vec![1])) {
        Dispatch::Fulfil { id, response } => {
            assert_eq!(id, a);
            assert_eq!(response.output, vec![1]);
        }
        _ => panic!("expected the waiter of a"),
    }
    assert!(matches!(s.on_message(response(a, vec![1])), Dispatch::Unmatched { id } if id == a));
}

#[test]
fn action_error_fails_only_its_waiter() {
    let mut s = Session::new();
    let (a, _) = s.begin_action("a".to_string(), vec![0x80]).unwrap();
    let (b, _) = s.begin_action("b".to_string(), vec![0x80]).unwrap();
    let err = Error {
        group: "user".to_string(),
        code: "bad".to_string(),
        message: "nope".to_string(),
        metadata: None,
        action_id: Some(a),
    };
    match s.on_message(ToClient { body: ToClientBody::Error(err.clone()) }) {
        Dispatch::Fail { id, error } => {
            assert_eq!(id, a);
            assert_eq!(
                action_outcome(Some(Err(error))),
                Err(ClientError::Rpc {
                    group: "user".to_string(),
                    code: "bad".to_string(),
                    message: "nope".to_string(),
                    metadata: None
                })
            );
        }
        _ => panic!("expected failure of a"),
    }
    assert!(matches!(s.on_message(response(b, vec![])), Dispatch::Fulfil { id, .. } if id == b));
}

#[test]
fn queued_messages_flush_in_order_after_subscriptions() {
    let mut s = Session::new();
    assert!(s.add_subscription("joined".to_string()).is_none());
    for name in ["x", "y", "z"] {
        let (_, o) = s.begin_action(name.to_string(), vec![0x80]).unwrap();
        assert!(matches!(o, Outbound::Queued));
    }
    assert!(s.attach());
    let out = match s.on_message(init("a1", "c1", "t1")) {
        Dispatch::Opened(out) => out,
        _ => panic!("expected the session to open"),
    };
    assert_eq!(out.len(), 4);
    assert_eq!(subscribed_name(&out[0]), Some("joined".to_string()));
    assert!(is_ephemeral(&out[0]));
    let ids: Vec<Option<u64>> = out[1..].iter().map(action_id).collect();
    assert_eq!(ids, vec![Some(0), Some(1), Some(2)]);
    let (_, later) = s.begin_action("w".to_string(), vec![0x80]).unwrap();
    assert!(matches!(later, Outbound::Send(m) if action_id(&m) == Some(3)));
}

#[test]
fn refused_send_goes_back_to_the_queue() {
    let mut s = Session::new();
    s.on_message(init("a1", "c1", "t1"));
    let (_, o) = s.begin_action("a".to_string(), vec![0x80]).unwrap();
    let msg = match o {
        Outbound::Send(m) => m,
        _ => panic!("expected an immediate send"),
    };
    s.requeue(msg);
    s.detach();
    match s.on_message(init("a1", "c2", "t2")) {
        Dispatch::Opened(out) => {
            assert_eq!(out.len(), 1);
            assert_eq!(action_id(&out[0]), Some(0));
        }
        _ => panic!("expected the session to open"),
    }
}

#[test]
fn ephemeral_messages_are_dropped_while_detached() {
    let mut s = Session::new();
    let sub = ToServer {
        body: ToServerBody::SubscriptionRequest(actor_client::protocol::SubscriptionRequest {
            event_name: "e".to_string(),
            subscribe: true,
        }),
    };
    assert!(matches!(s.send_msg(sub.clone()), Outbound::Dropped));
    s.requeue(sub);
    match s.on_message(init("a", "c", "t")) {
        Dispatch::Opened(out) => assert!(out.is_empty()),
        _ => panic!("expected the session to open"),
    }
}

#[test]
fn each_subscription_is_replayed_once_per_init() {
    let mut s = Session::new();
    assert!(s.add_subscription("a".to_string()).is_none());
    assert!(s.add_subscription("b".to_string()).is_none());
    assert!(s.add_subscription("a".to_string()).is_none());
    for round in 0..2 {
        match s.on_message(init("x", "c", "t")) {
            Dispatch::Opened(out) => {
                let names: Vec<Option<String>> = out.iter().map(subscribed_name).collect();
                assert_eq!(names, vec![Some("a".to_string()), Some("b".to_string())], "round {}", round);
            }
            _ => panic!("expected the session to open"),
        }
        s.detach();
    }
}

#[test]
fn subscription_before_attach_sent_once() {
    let mut s = Session::new();
    assert!(s.add_subscription("joined".to_string()).is_none());
    let out = match s.on_message(init("a1", "c1", "t1")) {
        Dispatch::Opened(out) => out,
        _ => panic!("expected the session to open"),
    };
    assert_eq!(out.len(), 1);
    assert_eq!(subscribed_name(&out[0]), Some("joined".to_string()));
    assert!(s.add_subscription("joined".to_string()).is_none());
    let fresh = s.add_subscription("left".to_string());
    assert_eq!(fresh.as_ref().and_then(subscribed_name), Some("left".to_string()));
}

#[test]
fn disconnect_clears_waiters_and_subscriptions() {
    let mut s = Session::new();
    s.add_subscription("e".to_string());
    let (a, _) = s.begin_action("a".to_string(), vec![0x80]).unwrap();
    assert!(s.attach());
    assert!(s.disconnect());
    assert!(s.is_disconnecting());
    assert!(!s.disconnect());
    assert!(!s.attach());
    assert!(matches!(s.on_message(response(a, vec![])), Dispatch::Unmatched { .. }));
    assert_eq!(action_outcome(None), Err(ClientError::SocketClosed));
    match s.on_message(init("a", "c", "t")) {
        Dispatch::Opened(out) => assert!(out.iter().all(|m| subscribed_name(m).is_none())),
        _ => panic!("expected an open"),
    }
}

#[test]
fn events_and_action_results_are_handed_back() {
    let mut s = Session::new();
    let ev = Event { name: "joined".to_string(), args: vec![0x81, 0x01] };
    match s.on_message(ToClient { body: ToClientBody::Event(ev.clone()) }) {
        Dispatch::Event(e) => assert_eq!(e, ev),
        _ => panic!("expected an event"),
    }
    assert_eq!(action_outcome(Some(Ok(ActionResponse { id: 0, output: vec![0x18, 0x2a] }))), Ok(vec![0x18, 0x2a]));
}

#[test]
fn ping_returns_forty_two() {
    let client = actor_client::Client::new("https://h", TransportKind::WebSocket, actor_client::EncodingKind::Json);
    let handle = client.get("room", vec!["r".to_string(), "1".to_string()], Default::default()).unwrap();
    assert!(check_transport(handle.transport()).is_ok());
    let mut s = Session::new();
    assert!(s.attach());
    assert!(matches!(s.on_message(init("a1", "c1", "t1")), Dispatch::Opened(out) if out.is_empty()));
    let args = serde_cbor::to_vec(&Vec::<serde_json::Value>::new()).unwrap();
    let (id, o) = s.begin_action("ping".to_string(), args.clone()).unwrap();
    assert_eq!(id, 0);
    match o {
        Outbound::Send(ToServer { body: ToServerBody::ActionRequest(r) }) => {
            assert_eq!(r.id, 0);
            assert_eq!(r.name, "ping");
            assert_eq!(r.args, args);
        }
        _ => panic!("expected the request to go out"),
    }
    let output = serde_cbor::to_vec(&serde_json::Value::from(42)).unwrap();
    let reply = match s.on_message(response(0, output)) {
        Dispatch::Fulfil { id, response } => {
            assert_eq!(id, 0);
            response
        }
        _ => panic!("expected the waiter of ping"),
    };
    let bytes = action_outcome(Some(Ok(reply))).unwrap();
    let value: serde_json::Value = serde_cbor::from_slice(&bytes).unwrap();
    assert_eq!(value, serde_json::Value::from(42));
}

#[test]
fn reconnect_resumes_with_credentials() {
    let manager = actor_client::remote_manager::RemoteManager::new("https://h", None);
    let mut s = Session::new();
    assert!(s.attach());
    s.on_message(init("a1", "c1", "t1"));
    assert!(s.detach());
    assert_eq!(s.after_attempt(true), LoopStep::Restart);
    let (cid, ctok) = s.credentials();
    assert_eq!(cid.as_deref(), Some("c1"));
    assert_eq!(ctok.as_deref(), Some("t1"));
    let protocols = manager.websocket_protocols("a1", actor_client::EncodingKind::Json, None, cid, ctok);
    assert!(protocols.contains(&"rivet_conn.c1".to_string()));
    assert!(protocols.contains(&"rivet_conn_token.t1".to_string()));
    let mut b = Backoff::new(1000, 30000);
    let delays: Vec<u64> = (0..7).map(|_| b.tick()).collect();
    assert_eq!(delays, vec![1000, 2000, 4000, 8000, 16000, 30000, 30000]);
}

#[test]
fn backoff_caps_and_never_shrinks() {
    let mut b = Backoff::new(7, 10);
    assert_eq!(b.delay(), 7);
    assert_eq!(b.tick(), 7);
    assert_eq!(b.delay(), 10);
    assert_eq!(b.tick(), 10);
    assert_eq!(b.delay(), 10);
    let mut big = Backoff::new(u64::MAX / 2 + 1, u64::MAX);
    big.tick();
    assert_eq!(big.delay(), u64::MAX);
}

#[test]
fn sse_fails_every_attempt_and_keeps_retrying() {
    let s = Session::new();
    for _ in 0..3 {
        assert_eq!(check_transport(TransportKind::Sse), Err(ClientError::UnsupportedTransport));
        assert_eq!(s.after_attempt(false), LoopStep::Wait);
        assert_eq!(after_wait(WaitOutcome::BackoffElapsed), LoopStep::Wait);
    }
}

#[test]
fn shutdown_stops_the_loop() {
    let mut s = Session::new();
    assert_eq!(after_wait(WaitOutcome::Shutdown), LoopStep::Stop);
    assert_eq!(after_wait(WaitOutcome::Disconnected), LoopStep::Stop);
    assert!(s.disconnect());
    assert_eq!(s.after_attempt(true), LoopStep::Stop);
}

#[test]
fn on_open_flushes_queue_after_subscriptions() {
    let mut s = Session::new();
    s.add_subscription("e".to_string());
    s.begin_action("a".to_string(), vec![0x80]).unwrap();
    let out = s.on_open(Init { actor_id: "a".to_string(), connection_id: "c".to_string(), connection_token: "t".to_string() });
    assert_eq!(out.len(), 2);
    assert_eq!(subscribed_name(&out[0]), Some("e".to_string()));
    assert_eq!(action_id(&out[1]), Some(0));
    assert!(s.on_open(Init { actor_id: "a".to_string(), connection_id: "c".to_string(), connection_token: "t".to_string() }).len() == 1);
}
