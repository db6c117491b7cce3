use actor_client::common::USER_AGENT_VALUE;
use actor_client::handle::{action_status, ActorHandleStateless, ResolveStep};
use actor_client::query::ActorQuery;
use actor_client::remote_manager::{
    action_path, creation_body, join, lookup_by_id_outcome, lookup_by_key_outcome, method_of, resolve_outcome,
    HttpMethod, RemoteManager,
};
use actor_client::{ClientError, Client, ControlOp, CreateOptions, EncodingKind, GetOrCreateOptions, TransportKind};

fn s(v: &str) -> String {
    v.to_string()
}

#[test]
fn encoding_names() {
    assert_eq!(EncodingKind::Json.as_str(), "json");
    assert_eq!(EncodingKind::Cbor.as_str(), "cbor");
    assert_eq!(EncodingKind::Cbor.to_string(), "cbor");
}

#[test]
fn websocket_url_promotes_scheme() {
    assert_eq!(RemoteManager::new("https://h", None).websocket_url(), Ok(s("wss://h/connect/websocket")));
    assert_eq!(RemoteManager::new("http://h:8080", None).websocket_url(), Ok(s("ws://h:8080/connect/websocket")));
}

#[test]
fn websocket_url_rejects_other_schemes() {
    for e in ["ftp://h", "h", "", "HTTP://h", "https:/h"] {
        assert_eq!(RemoteManager::new(e, None).websocket_url(), Err(ClientError::InvalidEndpointUrl));
    }
}

#[test]
fn protocols_in_prescribed_order() {
    let m = RemoteManager::new("https://h", Some(s("tok")));
    let p = m.websocket_protocols("a1", EncodingKind::Cbor, Some(s("{\"x\":1}")), Some(s("c1")), Some(s("t1")));
    assert_eq!(
        p,
        vec![
            s("rivet"),
            s("rivet_target.actor"),
            s("rivet_actor.a1"),
            s("rivet_encoding.cbor"),
            s("rivet_token.tok"),
            s("rivet_conn_params.%7B%22x%22%3A1%7D"),
            s("rivet_conn.c1"),
            s("rivet_conn_token.t1"),
        ]
    );
    let bare = RemoteManager::new("https://h", None);
    assert_eq!(
        bare.websocket_protocol_header("a1", EncodingKind::Json, None, None, None),
        "rivet, rivet_target.actor, rivet_actor.a1, rivet_encoding.json"
    );
}

#[test]
fn join_edge_cases() {
    assert_eq!(join(&vec![], ", "), "");
    assert_eq!(join(&vec![s("a")], ", "), "a");
    assert_eq!(join(&vec![s("a"), s("b"), s("c")], "-"), "a-b-c");
}

#[test]
fn lookup_urls_are_encoded() {
    let m = RemoteManager::new("http://h", None);
    assert_eq!(m.get_for_id_url("my room", "id/1"), "http://h/actors?name=my%20room&actor_ids=id%2F1");
    assert_eq!(
        m.get_with_key_url("room", &vec![s("r"), s("1")]),
        "http://h/actors?name=room&key=%5B%22r%22%2C%221%22%5D"
    );
    assert_eq!(m.actors_url(), "http://h/actors");
    assert_eq!(action_path("do it"), "/action/do%20it");
}

#[test]
fn key_lookup_404_is_none() {
    assert_eq!(lookup_by_key_outcome(404, vec![]), Ok(None));
    assert_eq!(lookup_by_key_outcome(500, vec![]), Err(ClientError::HttpStatus { op: ControlOp::GetWithKey, status: 500 }));
    assert_eq!(lookup_by_key_outcome(200, vec![(s("room"), s("a")), (s("room"), s("b"))]), Ok(Some(s("a"))));
    assert_eq!(lookup_by_key_outcome(200, vec![]), Ok(None));
    assert_eq!(resolve_outcome(ControlOp::GetWithKey, "room", 404, vec![]), Err(ClientError::ActorNotFound));
}

#[test]
fn id_lookup_matches_name() {
    assert_eq!(lookup_by_id_outcome("room", 200, vec![(s("room"), s("a1"))]), Ok(Some(s("a1"))));
    assert_eq!(lookup_by_id_outcome("room", 200, vec![(s("other"), s("a1"))]), Ok(None));
    assert_eq!(
        lookup_by_id_outcome("room", 200, vec![(s("other"), s("a1")), (s("room"), s("a2")), (s("room"), s("a3"))]),
        Ok(Some(s("a2")))
    );
    assert_eq!(lookup_by_id_outcome("room", 200, vec![]), Ok(None));
    assert_eq!(lookup_by_id_outcome("room", 404, vec![]), Err(ClientError::HttpStatus { op: ControlOp::GetForId, status: 404 }));
    assert_eq!(resolve_outcome(ControlOp::GetForId, "room", 200, vec![(s("other"), s("a1"))]), Err(ClientError::ActorNotFound));
    assert_eq!(resolve_outcome(ControlOp::GetForId, "room", 200, vec![(s("x"), s("a1")), (s("room"), s("a4"))]), Ok(s("a4")));
    assert_eq!(resolve_outcome(ControlOp::Create, "room", 200, vec![(s("room"), s("a9"))]), Ok(s("a9")));
    assert_eq!(resolve_outcome(ControlOp::GetOrCreate, "room", 200, vec![]), Err(ClientError::MalformedResponse { op: ControlOp::GetOrCreate }));
    assert_eq!(resolve_outcome(ControlOp::Create, "room", 409, vec![]), Err(ClientError::HttpStatus { op: ControlOp::Create, status: 409 }));
}

#[test]
fn creation_body_encodes_key_and_input() {
    let b = creation_body("room", &vec![s("r"), s("1")], &Some(vec![1, 2, 3]));
    assert_eq!(b.name, "room");
    assert_eq!(b.key, "[\"r\",\"1\"]");
    assert_eq!(b.input, Some(s("AQID")));
    let none = creation_body("room", &vec![], &None);
    assert_eq!(none.key, "[]");
    assert_eq!(none.input, None);
}

#[test]
fn methods_per_operation() {
    assert_eq!(method_of(ControlOp::GetForId), HttpMethod::Get);
    assert_eq!(method_of(ControlOp::GetWithKey), HttpMethod::Get);
    assert_eq!(method_of(ControlOp::GetOrCreate), HttpMethod::Put);
    assert_eq!(method_of(ControlOp::Create), HttpMethod::Post);
}

#[test]
fn headers_carry_agent_target_and_token() {
    let m = RemoteManager::new("http://h", Some(s("tok")));
    assert_eq!(
        m.actor_headers("a1"),
        vec![
            (s("user-agent"), s(USER_AGENT_VALUE)),
            (s("x-rivet-target"), s("actor")),
            (s("x-rivet-actor"), s("a1")),
            (s("x-rivet-token"), s("tok")),
        ]
    );
    assert!(USER_AGENT_VALUE.starts_with("ActorClient-Rust/"));
    assert_eq!(RemoteManager::new("http://h", None).control_headers(), vec![(s("user-agent"), s(USER_AGENT_VALUE))]);
}

#[test]
fn resolving_by_id_is_idempotent() {
    let m = RemoteManager::new("http://h", None);
    let mut h = ActorHandleStateless::new(m, None, EncodingKind::Json, ActorQuery::GetForId { name: s("room"), actor_id: s("a1") });
    for _ in 0..3 {
        assert!(matches!(h.resolve_step(), ResolveStep::Known(id) if id == "a1"));
    }
    h.record_resolved(s("zzz"));
    assert_eq!(*h.query(), ActorQuery::GetForId { name: s("room"), actor_id: s("a1") });
    let r1 = h.manager().resolve_request(h.query());
    let r2 = h.manager().resolve_request(h.query());
    assert_eq!(r1.url, r2.url);
    assert_eq!(r1.url, "http://h/actors?name=room&actor_ids=a1");
}

#[test]
fn key_resolution_is_memoized() {
    let m = RemoteManager::new("http://h", None);
    let mut h = ActorHandleStateless::new(m, None, EncodingKind::Json, ActorQuery::GetForKey { name: s("room"), key: vec![s("r")] });
    match h.resolve_step() {
        ResolveStep::Request(r) => {
            assert_eq!(r.op, ControlOp::GetWithKey);
            assert_eq!(r.url, "http://h/actors?name=room&key=%5B%22r%22%5D");
        }
        _ => panic!("expected a lookup"),
    }
    h.record_resolved(s("a7"));
    assert_eq!(*h.query(), ActorQuery::GetForId { name: s("room"), actor_id: s("a7") });
    assert!(matches!(h.resolve_step(), ResolveStep::Known(id) if id == "a7"));
}

#[test]
fn create_queries_are_rejected_by_stateless_resolve() {
    let m = RemoteManager::new("http://h", None);
    let h = ActorHandleStateless::new(
        m,
        None,
        EncodingKind::Json,
        ActorQuery::Create { name: s("room"), key: vec![], input: None, region: None },
    );
    assert!(matches!(h.resolve_step(), ResolveStep::Rejected(ClientError::QueryIsCreate)));
}

#[test]
fn unary_action_call() {
    let m = RemoteManager::new("http://h", Some(s("tok")));
    let h = ActorHandleStateless::new(m, Some(s("{\"a\":1}")), EncodingKind::Cbor, ActorQuery::GetForId { name: s("n"), actor_id: s("a1") });
    let call = h.action_call("a1", "say hi");
    assert_eq!(call.url, "http://h/action/say%20hi");
    assert_eq!(call.headers[4], (s("x-rivet-encoding"), s("cbor")));
    assert_eq!(call.headers[5], (s("x-rivet-conn-params"), s("{\"a\":1}")));
    assert_eq!(action_status(204), Ok(()));
    assert_eq!(action_status(500), Err(ClientError::ActionFailed { status: 500 }));
}

#[test]
fn client_builds_handles_without_network() {
    let c = Client::new_with_token("https://h", s("t"), TransportKind::Sse, EncodingKind::Cbor);
    let h = c.get_for_id("room", "a1", Default::default()).unwrap();
    assert_eq!(*h.stateless().query(), ActorQuery::GetForId { name: s("room"), actor_id: s("a1") });
    assert_eq!(h.transport(), TransportKind::Sse);
    let opts = GetOrCreateOptions { params: None, create_in_region: Some(s("eu")), create_with_input: Some(vec![0xf6]) };
    let g = c.get_or_create("room", vec![s("k")], opts).unwrap();
    assert_eq!(
        *g.stateless().query(),
        ActorQuery::GetOrCreateForKey { name: s("room"), key: vec![s("k")], input: Some(vec![0xf6]), region: Some(s("eu")) }
    );
    let req = c.create_request("room", vec![s("k")], Some(vec![0xf6]));
    assert_eq!(req.op, ControlOp::Create);
    assert_eq!(req.url, "https://h/actors");
    assert_eq!(req.body.unwrap().input, Some(s("9g==")));
    let created = c.created_handle("room", s("a5"), CreateOptions::default());
    assert!(matches!(created.stateless().resolve_step(), ResolveStep::Known(id) if id == "a5"));
}

#[test]
fn get_or_create_resolves_through_a_put_with_body() {
    let m = RemoteManager::new("http://h", None);
    let h = ActorHandleStateless::new(
        m,
        None,
        EncodingKind::Json,
        ActorQuery::GetOrCreateForKey { name: s("room"), key: vec![s("r"), s("1")], input: Some(vec![1, 2, 3]), region: Some(s("eu")) },
    );
    match h.resolve_step() {
        ResolveStep::Request(r) => {
            assert_eq!(r.op, ControlOp::GetOrCreate);
            assert_eq!(method_of(r.op), HttpMethod::Put);
            assert_eq!(r.url, "http://h/actors");
            let body = r.body.unwrap();
            assert_eq!(body.name, "room");
            assert_eq!(body.key, "[\"r\",\"1\"]");
            assert_eq!(body.input, Some(s("AQID")));
        }
        _ => panic!("expected a get-or-create request"),
    }
}
