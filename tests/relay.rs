use relay_server::connection::{Connection, Inbound, Phase};
use relay_server::registry::{Delivery, DuplicateId, Registry};
use relay_server::server::{BindError, NotRunningError, WebSocketServer};
use tokio::sync::mpsc::{unbounded_channel, UnboundedReceiver};
use tokio_tungstenite::tungstenite::Message;

fn texts(rx: &mut UnboundedReceiver<Message>) -> Vec<String> {
    let mut out = Vec::new();
    while let Ok(m) = rx.try_recv() {
        match m {
            Message::Text(t) => out.push(t.as_str().to_string()),
            other => panic!("unexpected frame {:?}", other),
        }
    }
    out
}

fn running_server(port: u16) -> WebSocketServer {
    let mut s = WebSocketServer::new(port);
    assert_eq!(s.on_bind(true), Ok(()));
    s
}

fn join(s: &mut WebSocketServer) -> (Connection, UnboundedReceiver<Message>) {
    let mut c = Connection::new();
    let rx = c.activate(s.registry_mut()).expect("fresh identity");
    assert_eq!(c.phase(), Phase::Active);
    (c, rx)
}

#[test]
fn scenario_hello_world_ping() {
    let mut s = running_server(9001);
    let (mut a, mut rx_a) = join(&mut s);
    let (mut b, mut rx_b) = join(&mut s);

    let report = a.on_inbound(s.registry_mut(), Inbound::Text("hello".to_string()));
    assert_eq!(report.len(), 2);
    assert_eq!(texts(&mut rx_a), vec!["hello".to_string()]);
    assert_eq!(texts(&mut rx_b), vec!["hello".to_string()]);

    let left = b.on_inbound(s.registry_mut(), Inbound::Close);
    assert!(left.is_empty());
    assert_eq!(b.phase(), Phase::Closing);
    b.finish(s.registry_mut());
    assert_eq!(b.phase(), Phase::Closed);
    drop(rx_b);

    let report = a.on_inbound(s.registry_mut(), Inbound::Text("world".to_string()));
    assert_eq!(report, vec![Delivery { peer: a.id(), accepted: true }]);
    assert_eq!(texts(&mut rx_a), vec!["world".to_string()]);

    let report = s.broadcast("ping").expect("server runs");
    assert_eq!(report, vec![Delivery { peer: a.id(), accepted: true }]);
    assert_eq!(texts(&mut rx_a), vec!["ping".to_string()]);
}

#[test]
fn every_peer_receives_a_relayed_text_once() {
    let mut s = running_server(9001);
    let mut peers = Vec::new();
    for _ in 0..5 {
        peers.push(join(&mut s));
    }
    let sender = peers[2].0.id();
    let report = peers[2].0.on_inbound(s.registry_mut(), Inbound::Text("hi".to_string()));
    let ids: Vec<u128> = report.iter().map(|d| d.peer).collect();
    let expected: Vec<u128> = peers.iter().map(|(c, _)| c.id()).collect();
    assert_eq!(ids, expected);
    assert!(ids.contains(&sender));
    for (_, rx) in peers.iter_mut() {
        assert_eq!(texts(rx), vec!["hi".to_string()]);
    }
}

#[test]
fn departed_peer_is_not_served() {
    let mut s = running_server(9001);
    let (mut a, mut rx_a) = join(&mut s);
    let (mut b, _rx_b) = join(&mut s);
    b.on_inbound(s.registry_mut(), Inbound::Failed);
    assert!(!s.registry().contains(b.id()));
    assert_eq!(s.registry().len(), 1);
    let report = a.on_inbound(s.registry_mut(), Inbound::Text("x".to_string()));
    assert!(report.iter().all(|d| d.peer != b.id()));
    assert_eq!(texts(&mut rx_a), vec!["x".to_string()]);
}

#[test]
fn inject_is_seen_like_a_relayed_text() {
    let mut s = running_server(9001);
    let (mut a, mut rx_a) = join(&mut s);
    let (_b, mut rx_b) = join(&mut s);
    let injected = s.broadcast("note").unwrap();
    let relayed = a.on_inbound(s.registry_mut(), Inbound::Text("note".to_string()));
    assert_eq!(injected, relayed);
    assert_eq!(texts(&mut rx_a), vec!["note".to_string(), "note".to_string()]);
    assert_eq!(texts(&mut rx_b), vec!["note".to_string(), "note".to_string()]);
}

#[test]
fn inject_before_start_fails_without_effect() {
    let mut s = WebSocketServer::new(9001);
    assert!(!s.is_running());
    let mut c = Connection::new();
    let mut rx = c.activate(s.registry_mut()).unwrap();
    assert_eq!(s.broadcast("early"), Err(NotRunningError));
    assert!(texts(&mut rx).is_empty());
    assert_eq!(s.registry().len(), 1);
}

#[test]
fn failed_bind_leaves_server_stopped() {
    let mut s = WebSocketServer::new(9001);
    assert_eq!(s.on_bind(false), Err(BindError { port: 9001 }));
    assert!(!s.is_running());
    assert_eq!(s.port(), 9001);
    assert_eq!(s.broadcast("x"), Err(NotRunningError));
    assert_eq!(s.on_bind(true), Ok(()));
    assert!(s.is_running());
}

#[test]
fn duplicate_identity_is_refused() {
    let mut r = Registry::new();
    let (tx1, mut rx1) = unbounded_channel();
    let (tx2, mut rx2) = unbounded_channel();
    assert_eq!(r.register(7, tx1), Ok(()));
    assert_eq!(r.register(7, tx2), Err(DuplicateId { id: 7 }));
    assert_eq!(r.len(), 1);
    let report = r.broadcast("one");
    assert_eq!(report, vec![Delivery { peer: 7, accepted: true }]);
    assert_eq!(texts(&mut rx1), vec!["one".to_string()]);
    assert!(rx2.try_recv().is_err());
}

#[test]
fn unregister_is_idempotent() {
    let mut r = Registry::new();
    let (tx, _rx) = unbounded_channel();
    assert_eq!(r.register(1, tx), Ok(()));
    assert!(r.unregister(1));
    assert!(!r.unregister(1));
    assert!(!r.contains(1));
    assert!(r.broadcast("gone").is_empty());
}

#[test]
fn closed_channel_is_skipped_and_others_served() {
    let mut r = Registry::new();
    let (tx1, rx1) = unbounded_channel();
    let (tx2, mut rx2) = unbounded_channel();
    r.register(1, tx1).unwrap();
    r.register(2, tx2).unwrap();
    drop(rx1);
    let report = r.broadcast("m");
    assert_eq!(
        report,
        vec![Delivery { peer: 1, accepted: false }, Delivery { peer: 2, accepted: true }]
    );
    assert_eq!(texts(&mut rx2), vec!["m".to_string()]);
}

#[test]
fn broadcast_to_empty_registry_reports_nothing() {
    let mut s = running_server(9001);
    assert_eq!(s.broadcast("none"), Ok(Vec::new()));
}

#[test]
fn ignored_frames_are_not_forwarded() {
    let mut s = running_server(9001);
    let (mut a, mut rx_a) = join(&mut s);
    assert!(a.on_inbound(s.registry_mut(), Inbound::Ignored).is_empty());
    assert_eq!(a.phase(), Phase::Active);
    assert!(texts(&mut rx_a).is_empty());
}

#[test]
fn events_outside_active_phase_do_nothing() {
    let mut s = running_server(9001);
    let mut c = Connection::new();
    assert!(c.on_inbound(s.registry_mut(), Inbound::Text("x".to_string())).is_empty());
    assert_eq!(c.phase(), Phase::Handshaking);
    c.handshake_failed();
    assert_eq!(c.phase(), Phase::Closed);
    assert!(c.activate(s.registry_mut()).is_none());
    assert_eq!(s.registry().len(), 0);
}

#[test]
fn write_failure_unregisters() {
    let mut s = running_server(9001);
    let (mut a, _rx) = join(&mut s);
    a.on_write_failed(s.registry_mut());
    assert_eq!(a.phase(), Phase::Closing);
    assert!(!s.registry().contains(a.id()));
    a.finish(s.registry_mut());
    assert_eq!(a.phase(), Phase::Closed);
    assert_eq!(s.registry().len(), 0);
}

#[test]
fn identities_are_distinct() {
    let mut s = running_server(9001);
    let (a, _ra) = join(&mut s);
    let (b, _rb) = join(&mut s);
    assert_ne!(a.id(), b.id());
    assert_eq!(a.id() >> 76 & 0xF, 4);
    assert_eq!(b.id() >> 62 & 0x3, 2);
}

#[test]
fn broadcasts_arrive_in_order() {
    let mut s = running_server(9001);
    let (mut a, mut rx_a) = join(&mut s);
    let (_b, mut rx_b) = join(&mut s);
    a.on_inbound(s.registry_mut(), Inbound::Text("first".to_string()));
    s.broadcast("second").unwrap();
    a.on_inbound(s.registry_mut(), Inbound::Text("third".to_string()));
    let expected = vec!["first".to_string(), "second".to_string(), "third".to_string()];
    assert_eq!(texts(&mut rx_a), expected);
    assert_eq!(texts(&mut rx_b), expected);
}
