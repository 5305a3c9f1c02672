use rsgi_dispatch::dispatch::{Action, Dispatcher, Event};
use rsgi_dispatch::response::{BodySource, ResponseDescriptor, ResponsePlan, Responder};
use rsgi_dispatch::scope::{build_scope, HttpVersion, RequestHead, SocketAddress};

fn responder() -> Responder {
    Responder::new("rsgi".to_string())
}

fn body_of(p: &ResponsePlan) -> Vec<u8> {
    match &p.body {
        BodySource::Bytes(b) => b.clone(),
        BodySource::File(_) => panic!("expected an in-memory body"),
    }
}

fn assert_fallback(p: &ResponsePlan) {
    assert_eq!(p.status, 500);
    assert_eq!(p.headers, vec![("server".to_string(), "rsgi".to_string())]);
    assert!(body_of(p).is_empty());
}

fn descriptor(status: u16, headers: Vec<(&str, &str)>, body: BodySource) -> ResponseDescriptor {
    ResponseDescriptor {
        status,
        headers: headers.into_iter().map(|(n, v)| (n.to_string(), v.to_string())).collect(),
        body,
    }
}

fn respond(a: Action) -> ResponsePlan {
    match a {
        Action::Respond(p) => p,
        _ => panic!("expected a response"),
    }
}

#[test]
fn body_mode_keeps_payload_verbatim() {
    let d = descriptor(200, vec![("content-type", "text/plain")], BodySource::Bytes(b"hello".to_vec()));
    let p = responder().materialize(d);
    assert_eq!(p.status, 200);
    assert_eq!(p.headers, vec![("content-type".to_string(), "text/plain".to_string())]);
    assert_eq!(body_of(&p), b"hello".to_vec());
}

#[test]
fn file_mode_keeps_path_for_streaming() {
    let d = descriptor(200, vec![], BodySource::File("/srv/data.bin".to_string()));
    let p = responder().materialize(d);
    assert_eq!(p.status, 200);
    assert!(matches!(&p.body, BodySource::File(f) if f == "/srv/data.bin"));
}

#[test]
fn invalid_status_falls_back() {
    let d = descriptor(42, vec![], BodySource::Bytes(b"x".to_vec()));
    assert_fallback(&responder().materialize(d));
    let d = descriptor(1000, vec![], BodySource::Bytes(b"x".to_vec()));
    assert_fallback(&responder().materialize(d));
}

#[test]
fn invalid_header_name_falls_back() {
    let d = descriptor(200, vec![("bad name", "v")], BodySource::Bytes(vec![]));
    assert_fallback(&responder().materialize(d));
    let d = descriptor(200, vec![("", "v")], BodySource::Bytes(vec![]));
    assert_fallback(&responder().materialize(d));
}

#[test]
fn invalid_header_value_falls_back() {
    let d = descriptor(200, vec![("x-a", "line\nbreak")], BodySource::Bytes(vec![]));
    assert_fallback(&responder().materialize(d));
    let d = descriptor(200, vec![("x-a", "tab\tand caf\u{e9}")], BodySource::Bytes(vec![]));
    assert_eq!(responder().materialize(d).status, 200);
}

#[test]
fn boundary_statuses_are_kept() {
    for s in [100u16, 999] {
        let d = descriptor(s, vec![], BodySource::Bytes(vec![]));
        assert_eq!(responder().materialize(d).status, s);
    }
}

#[test]
fn file_open_failure_falls_back() {
    let d = descriptor(200, vec![], BodySource::File("/missing".to_string()));
    let r = responder();
    let plan = r.materialize(d);
    assert_fallback(&r.file_opened(plan, false));
}

#[test]
fn file_open_success_keeps_plan() {
    let d = descriptor(206, vec![("x-a", "b")], BodySource::File("/f".to_string()));
    let r = responder();
    let plan = r.file_opened(r.materialize(d), true);
    assert_eq!(plan.status, 206);
    assert!(matches!(&plan.body, BodySource::File(f) if f == "/f"));
}

#[test]
fn fallback_is_fixed() {
    assert_fallback(&responder().fallback());
}

#[test]
fn bad_request_carries_description() {
    let p = responder().bad_request("Missing Sec-WebSocket-Key");
    assert_eq!(p.status, 400);
    assert_eq!(p.headers, vec![("server".to_string(), "rsgi".to_string())]);
    assert_eq!(body_of(&p), b"Missing Sec-WebSocket-Key".to_vec());
}

#[test]
fn session_switching_protocols() {
    let p = responder().session_reply(Some((101, false))).unwrap();
    assert_eq!(p.status, 101);
    assert_eq!(p.headers, vec![("server".to_string(), "rsgi".to_string())]);
    assert!(body_of(&p).is_empty());
}

#[test]
fn session_consumed_sends_nothing() {
    assert!(responder().session_reply(Some((101, true))).is_none());
    assert!(responder().session_reply(Some((-5, true))).is_none());
}

#[test]
fn session_failure_sends_fallback() {
    assert_fallback(&responder().session_reply(None).unwrap());
}

#[test]
fn session_invalid_status_is_forbidden() {
    for s in [-1i32, 0, 99, 1000, 65535, 65536 + 101, i32::MAX, i32::MIN] {
        assert_eq!(responder().session_reply(Some((s, false))).unwrap().status, 403);
    }
    assert_eq!(responder().session_reply(Some((404, false))).unwrap().status, 404);
}

fn count_responses(d: &mut Dispatcher, events: Vec<Event>) -> usize {
    let mut n = 0;
    for e in events {
        if let Action::Respond(_) | Action::ForwardReply = d.step(e) {
            n += 1;
        }
    }
    n
}

#[test]
fn plain_request_responds_once() {
    let mut d = Dispatcher::new(responder(), true);
    assert!(matches!(d.step(Event::Arrived { upgrade: false }), Action::InvokeCallback));
    let desc = descriptor(200, vec![], BodySource::Bytes(b"hello".to_vec()));
    let p = respond(d.step(Event::CallbackDone(Some(desc))));
    assert_eq!(body_of(&p), b"hello".to_vec());
    assert!(d.is_done());
    assert!(matches!(d.step(Event::FileOpened(true)), Action::Idle));
}

#[test]
fn callback_failure_responds_fallback() {
    let mut d = Dispatcher::new(responder(), false);
    d.step(Event::Arrived { upgrade: true });
    assert_fallback(&respond(d.step(Event::CallbackDone(None))));
}

#[test]
fn file_request_opens_then_responds() {
    let mut d = Dispatcher::new(responder(), false);
    d.step(Event::Arrived { upgrade: false });
    let desc = descriptor(200, vec![], BodySource::File("/f".to_string()));
    assert!(matches!(d.step(Event::CallbackDone(Some(desc))), Action::OpenFile(f) if f == "/f"));
    let p = respond(d.step(Event::FileOpened(true)));
    assert!(matches!(&p.body, BodySource::File(f) if f == "/f"));
}

#[test]
fn file_request_unreadable_falls_back() {
    let mut d = Dispatcher::new(responder(), false);
    d.step(Event::Arrived { upgrade: false });
    let desc = descriptor(200, vec![], BodySource::File("/f".to_string()));
    d.step(Event::CallbackDone(Some(desc)));
    assert_fallback(&respond(d.step(Event::FileOpened(false))));
}

#[test]
fn upgrade_handshake_failure_is_bad_request() {
    let mut d = Dispatcher::new(responder(), true);
    assert!(matches!(d.step(Event::Arrived { upgrade: true }), Action::Negotiate));
    let p = respond(d.step(Event::HandshakeDone(Err("bad key".to_string()))));
    assert_eq!(p.status, 400);
    assert_eq!(body_of(&p), b"bad key".to_vec());
}

#[test]
fn upgrade_session_reply_is_returned() {
    let r = responder();
    let mut d = Dispatcher::new(Responder::new("rsgi".to_string()), true);
    d.step(Event::Arrived { upgrade: true });
    assert!(matches!(d.step(Event::HandshakeDone(Ok(()))), Action::SpawnSession));
    let reply = r.session_reply(Some((101, false)));
    assert_eq!(reply.unwrap().status, 101);
    assert!(matches!(d.step(Event::SessionReplied(true)), Action::ForwardReply));
    assert!(d.is_done());
}

#[test]
fn upgrade_session_without_reply_falls_back() {
    let mut d = Dispatcher::new(responder(), true);
    d.step(Event::Arrived { upgrade: true });
    d.step(Event::HandshakeDone(Ok(())));
    assert_fallback(&respond(d.step(Event::SessionReplied(false))));
}

#[test]
fn unexpected_event_falls_back() {
    let mut d = Dispatcher::new(responder(), true);
    assert_fallback(&respond(d.step(Event::FileOpened(true))));
    assert!(matches!(d.step(Event::Arrived { upgrade: false }), Action::Idle));
}

#[test]
fn every_run_responds_exactly_once() {
    let runs: Vec<Vec<Event>> = vec![
        vec![Event::Arrived { upgrade: false }, Event::CallbackDone(None), Event::CallbackDone(None)],
        vec![Event::Arrived { upgrade: true }, Event::HandshakeDone(Ok(())), Event::SessionReplied(true), Event::SessionReplied(false)],
        vec![Event::Arrived { upgrade: true }, Event::HandshakeDone(Err("e".to_string())), Event::HandshakeDone(Ok(()))],
        vec![Event::Arrived { upgrade: false }, Event::HandshakeDone(Ok(())), Event::FileOpened(true)],
    ];
    for events in runs {
        let mut d = Dispatcher::new(responder(), true);
        assert_eq!(count_responses(&mut d, events), 1);
    }
}

fn head() -> RequestHead {
    RequestHead {
        method: "GET".to_string(),
        uri: "/chat?room=1".to_string(),
        version: HttpVersion::Http11,
        headers: vec![("host".to_string(), b"example.org".to_vec())],
    }
}

fn addr(host: &str, port: u16) -> SocketAddress {
    SocketAddress { host: host.to_string(), port }
}

#[test]
fn scope_fields_come_from_request() {
    let s = build_scope(addr("10.0.0.1", 8000), addr("10.0.0.2", 51000), head(), "https");
    assert_eq!(s.proto, "http");
    assert_eq!(s.scheme, "https");
    assert_eq!(s.uri, "/chat?room=1");
    assert_eq!(s.method, "GET");
    assert_eq!(s.http_version, HttpVersion::Http11);
    assert_eq!(s.server.host, "10.0.0.1");
    assert_eq!(s.client.port, 51000);
    assert_eq!(s.headers, vec![("host".to_string(), b"example.org".to_vec())]);
}

#[test]
fn scope_builder_is_deterministic() {
    let a = build_scope(addr("h", 1), addr("c", 2), head(), "http");
    let b = build_scope(addr("h", 1), addr("c", 2), head(), "http");
    assert_eq!((a.proto, a.scheme, a.uri, a.method, a.headers), (b.proto, b.scheme, b.uri, b.method, b.headers));
    assert_eq!((a.server.host, a.server.port, a.client.host, a.client.port), (b.server.host, b.server.port, b.client.host, b.client.port));
    assert_eq!(a.http_version, b.http_version);
}

#[test]
fn set_ws_changes_only_proto() {
    let mut s = build_scope(addr("h", 1), addr("c", 2), head(), "http");
    s.set_ws();
    assert_eq!(s.proto, "ws");
    assert_eq!(s.uri, "/chat?room=1");
}
