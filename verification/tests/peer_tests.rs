use dashmap::DashMap;
use p2p_peer::config::parse_period;
use p2p_peer::api::{addresses_of, peer_info_list, ChatMessage, PeerInfo, PeerInfoList};
use p2p_peer::delivery::client::Client;
use p2p_peer::peer::peer::Peer;
use p2p_peer::peer::server::Server;
use p2p_peer::peer::PeerService;
use p2p_peer::registry::PeerRegistry;
use p2p_peer::use_case::gossip::{
    gossip_message, gossip_round, gossip_wanted, settle_round, GossipRound, GOSSIP_MESSAGE_LEN,
};
use p2p_peer::use_case::peer_provider::{initial_table, mark_subscribed, PeerProvider};
use p2p_peer::use_case::relay::{relay_step, RelayAction, RelayEvent};
use p2p_peer::{Config, PeerError};
use std::collections::HashSet;
use std::sync::Arc;

fn s(x: &str) -> String {
    x.to_string()
}

fn set_of(v: &[String]) -> HashSet<String> {
    v.iter().cloned().collect()
}

fn answer_set(list: &PeerInfoList) -> HashSet<String> {
    list.infos.iter().map(|p| p.address.clone()).collect()
}

fn channel() -> Arc<tokio::sync::broadcast::Sender<String>> {
    Arc::new(tokio::sync::broadcast::channel::<String>(4).0)
}

fn flag(table: &DashMap<String, bool>, key: &str) -> Option<bool> {
    table.get(key).map(|v| *v)
}

fn entry(p: &PeerProvider, key: &str) -> Option<bool> {
    p.peer_entries().into_iter().find(|(k, _)| k == key).map(|(_, v)| v)
}

#[test]
fn read_config_requires_port() {
    match Config::read_config(None, Some(s("127.0.0.1:3001")), Some(s("10"))) {
        Err(PeerError::ReadConfig(m)) => assert_eq!(m, "port is required"),
        _ => panic!("a missing port must be refused"),
    }
}

#[test]
fn read_config_keeps_port_and_peer() {
    let c = Config::read_config(Some(s("3002")), Some(s("3001")), Some(s("10"))).ok().unwrap();
    assert_eq!(c.port, "3002");
    assert_eq!(c.known_peer_address, Some(s("3001")));
    assert_eq!(c.period, 10);
    let c = Config::read_config(Some(s("3001")), None, Some(s("10"))).ok().unwrap();
    assert_eq!(c.port, "3001");
    assert_eq!(c.known_peer_address, None);
    assert_eq!(c.period, 10);
    let c = Config::read_config(Some(s("3001")), None, Some(s("0"))).ok().unwrap();
    assert_eq!(c.period, 0);
}

fn config_error(port: Option<&str>, period: Option<&str>) -> String {
    match Config::read_config(port.map(s), None, period.map(s)) {
        Err(PeerError::ReadConfig(m)) => m,
        _ => panic!("the options must be refused"),
    }
}

#[test]
fn read_config_requires_period() {
    assert_eq!(config_error(Some("3001"), None), "period is required");
    let bad = "period must be a whole number of seconds";
    assert_eq!(config_error(Some("3001"), Some("")), bad);
    assert_eq!(config_error(Some("3001"), Some("ten")), bad);
    assert_eq!(config_error(Some("3001"), Some("1x")), bad);
    assert_eq!(config_error(Some("3001"), Some("-5")), bad);
    assert_eq!(config_error(Some("3001"), Some("99999999999999999999999")), bad);
    assert_eq!(config_error(None, Some("ten")), "port is required");
}

#[test]
fn parse_period_values() {
    assert_eq!(parse_period(&s("10")), Some(10));
    assert_eq!(parse_period(&s("0")), Some(0));
    assert_eq!(parse_period(&s("007")), Some(7));
    assert_eq!(parse_period(&usize::MAX.to_string()), Some(usize::MAX));
    assert_eq!(parse_period(&s("18446744073709551616")), None);
    assert_eq!(parse_period(&s(" 5")), None);
}

#[test]
fn error_messages() {
    assert_eq!(PeerError::ReadConfig(s("x")).message(), "config reading error: x");
    assert_eq!(
        PeerError::ParseServerAddressError(s("bad")).message(),
        "server address parsing error: bad"
    );
    assert_eq!(PeerError::CannotStartServer(s("busy")).message(), "can't start server error: busy");
    assert_eq!(PeerError::Other(s("?")).message(), "unknown error: ?");
}

#[test]
fn client_endpoint_and_announcement() {
    let c = Client::new(s("[::1]:3002"));
    assert_eq!(Client::endpoint(&s("[::1]:3001")), "http://[::1]:3001");
    assert_eq!(c.announcement().address, "[::1]:3002");
    assert_eq!(c.clone().announcement().address, "[::1]:3002");
}

#[test]
fn peer_lists_round_trip() {
    let list = peer_info_list(vec![s("a"), s("b"), s("a")]);
    assert_eq!(list.infos.len(), 3);
    assert_eq!(list.infos[1].address, "b");
    assert_eq!(addresses_of(&list), vec![s("a"), s("b"), s("a")]);
    assert_eq!(Client::known_peers(&list), vec![s("a"), s("b"), s("a")]);
    let info = PeerInfo::new(s("z"));
    assert_eq!(info.address, "z");
    let m = ChatMessage::new(s("me"), s("hi"));
    assert_eq!((m.from.as_str(), m.content.as_str()), ("me", "hi"));
}

#[test]
fn registry_greetings() {
    let mut r = PeerRegistry::new();
    assert!(!r.contains(&s("a")));
    let first = r.greet(s("a"));
    assert!(first.infos.is_empty());
    let second = r.greet(s("b"));
    assert_eq!(answer_set(&second), set_of(&[s("a")]));
    let third = r.greet(s("a"));
    assert_eq!(answer_set(&third), set_of(&[s("b")]));
    assert!(r.contains(&s("a")) && r.contains(&s("b")));
    assert!(!r.insert(s("a")));
    assert!(r.insert(s("c")));
    let rest = r.others(&s("b"));
    assert_eq!(rest.len(), 2);
    assert_eq!(set_of(&rest), set_of(&[s("a"), s("c")]));
}

#[test]
fn service_greeting_leaves_out_caller() {
    let mut service = PeerService::new(s("me"), channel());
    assert!(service.greeting(s("p1")).infos.is_empty());
    assert_eq!(answer_set(&service.greeting(s("p2"))), set_of(&[s("p1")]));
    assert_eq!(answer_set(&service.greeting(s("p3"))), set_of(&[s("p1"), s("p2")]));
    assert_eq!(service.address, "me");
}

#[test]
fn server_greeting_and_relay() {
    let mut server = Server::new(PeerRegistry::new(), s("srv"), channel());
    server.greeting(s("x"));
    assert_eq!(answer_set(&server.greeting(s("y"))), set_of(&[s("x")]));
    assert_eq!(server.local_address(), "srv");
    match server.relay(RelayEvent::Received(s("news"))) {
        RelayAction::Forward(m) => {
            assert_eq!(m.from, "srv");
            assert_eq!(m.content, "news");
        }
        _ => panic!("a received message is forwarded"),
    }
    let tx = server.gossip_sender();
    assert_eq!(tx.receiver_count(), 0);
}

#[test]
fn relay_decisions() {
    let me = s("me");
    assert!(matches!(relay_step(&me, RelayEvent::Lagged), RelayAction::Listen));
    assert!(matches!(relay_step(&me, RelayEvent::Delivered), RelayAction::Listen));
    assert!(matches!(relay_step(&me, RelayEvent::Closed), RelayAction::Stop));
    assert!(matches!(relay_step(&me, RelayEvent::DeliveryFailed), RelayAction::Stop));
    match relay_step(&me, RelayEvent::Received(s("m"))) {
        RelayAction::Forward(m) => assert_eq!((m.from.as_str(), m.content.as_str()), ("me", "m")),
        _ => panic!("a received message is forwarded"),
    }
    let service = PeerService::new(s("svc"), channel());
    assert!(matches!(service.relay(RelayEvent::Closed), RelayAction::Stop));
}

#[test]
fn peer_first_greeting() {
    let server = Server::new(PeerRegistry::new(), s("[::1]:3002"), channel());
    let peer = Peer::new(server, s("[::1]:3002"), Some(s("[::1]:3001")));
    let (uri, info) = peer.first_greeting().unwrap();
    assert_eq!(uri, "http://[::1]:3001");
    assert_eq!(info.address, "[::1]:3002");
    assert_eq!(peer.server_address(), "[::1]:3002");
    let server = Server::new(PeerRegistry::new(), s("a"), channel());
    let lone = Peer::new(server, s("a"), None);
    assert!(lone.first_greeting().is_none());
    assert_eq!(lone.into_server().address, "a");
}

#[test]
fn initial_table_holds_self_and_known() {
    let t = initial_table(&s("me"), &Some(s("k")));
    assert_eq!(t.len(), 2);
    assert_eq!(flag(&t, "me"), Some(false));
    assert_eq!(flag(&t, "k"), Some(false));
    let t = initial_table(&s("me"), &None);
    assert_eq!(t.len(), 1);
}

#[test]
fn provider_known_peer_reply() {
    let table = initial_table(&s("me"), &Some(s("k")));
    table.insert(s("old"), true);
    let mut p = PeerProvider::new(table, s("me"), 4);
    assert_eq!(p.my_address(), "me");
    assert_eq!(p.client().announcement().address, "me");
    assert!(p.on_known_peer_reply(s("k"), Some(vec![s("a"), s("old"), s("a"), s("me")])));
    assert_eq!(p.peer_entries().len(), 4);
    assert_eq!(entry(&p, "k"), Some(false));
    assert_eq!(entry(&p, "a"), Some(false));
    assert_eq!(entry(&p, "old"), Some(true));
    let mut q = PeerProvider::new(DashMap::new(), s("me"), 1);
    assert!(!q.on_known_peer_reply(s("k"), None));
    assert_eq!(q.peer_entries().len(), 1);
    assert_eq!(entry(&q, "k"), Some(false));
}

#[test]
fn provider_dial_candidates() {
    let table = initial_table(&s("me"), &Some(s("k")));
    table.insert(s("a"), false);
    table.insert(s("b"), true);
    table.insert(s("c"), false);
    let p = PeerProvider::new(table, s("me"), 4);
    let c = p.dial_candidates(&s("k"));
    assert_eq!(c.len(), 2);
    assert_eq!(set_of(&c), set_of(&[s("a"), s("c")]));
}

#[test]
fn provider_dial_replies() {
    let table = DashMap::new();
    table.insert(s("a"), true);
    let mut p = PeerProvider::new(table, s("me"), 4);
    assert!(!p.on_dial_reply(s("a"), false));
    assert_eq!(entry(&p, "a"), Some(true));
    assert!(p.on_dial_reply(s("a"), true));
    assert_eq!(entry(&p, "a"), Some(false));
    p.on_dial_reply(s("b"), false);
    assert_eq!(entry(&p, "b"), Some(false));
    p.mark_seen(s("c"));
    p.learn(vec![s("c"), s("d")]);
    assert_eq!(p.peer_entries().len(), 4);
}

#[test]
fn provider_add_peer_answers_all() {
    let table = initial_table(&s("me"), &None);
    table.insert(s("x"), true);
    let mut p = PeerProvider::new(table, s("me"), 4);
    let known = p.add_peer(s("new"));
    assert_eq!(known.len(), 3);
    assert_eq!(set_of(&known), set_of(&[s("me"), s("x"), s("new")]));
    assert_eq!(entry(&p, "new"), Some(false));
    let again = p.add_peer(s("x"));
    assert_eq!(again.len(), 3);
    assert_eq!(entry(&p, "x"), Some(false));
}

fn is_gossip(text: &str) -> bool {
    text.len() == GOSSIP_MESSAGE_LEN && text.chars().all(|c| c.is_ascii_alphanumeric())
}

#[test]
fn gossip_messages_have_form() {
    let m = gossip_message();
    assert!(is_gossip(&m));
    assert_eq!(m.chars().count(), 30);
}

#[test]
fn gossip_round_needs_listeners() {
    let p = PeerProvider::new(DashMap::new(), s("me"), 4);
    assert!(matches!(p.gossip_round(), GossipRound::Quiet));
    let tx = p.gossip_sender();
    let mut rx = tx.subscribe();
    match p.gossip_round() {
        GossipRound::Sent { message, receivers } => {
            assert_eq!(receivers, 1);
            assert!(is_gossip(&message));
            assert_eq!(rx.try_recv().unwrap(), message);
        }
        _ => panic!("a listened channel gets gossip"),
    }
    match gossip_round(&tx) {
        GossipRound::Sent { receivers, .. } => assert_eq!(receivers, 1),
        _ => panic!("a listened channel gets gossip"),
    }
    drop(rx);
    assert!(matches!(gossip_round(&tx), GossipRound::Quiet));
}

#[test]
fn gossip_decisions() {
    assert!(!gossip_wanted(0));
    assert!(gossip_wanted(3));
    match settle_round(s("m"), Some(2)) {
        GossipRound::Sent { message, receivers } => {
            assert_eq!(message, "m");
            assert_eq!(receivers, 2);
        }
        _ => panic!("a sent message is reported sent"),
    }
    assert!(matches!(settle_round(s("m"), None), GossipRound::Unsent { .. }));
}

#[test]
fn greeting_twice_changes_nothing() {
    let mut r = PeerRegistry::new();
    r.greet(s("a"));
    r.greet(s("b"));
    let first = answer_set(&r.greet(s("c")));
    let second = answer_set(&r.greet(s("c")));
    assert_eq!(first, second);
    assert_eq!(first, set_of(&[s("a"), s("b")]));
    assert_eq!(r.others(&s("zz")).len(), 3);
}

#[test]
fn added_peer_is_dialled_next() {
    let table = initial_table(&s("me"), &Some(s("k")));
    let mut p = PeerProvider::new(table, s("me"), 2);
    p.add_peer(s("fresh"));
    p.add_peer(s("me"));
    p.add_peer(s("k"));
    assert_eq!(p.dial_candidates(&s("k")), vec![s("fresh")]);
    let mut copy = p.peer_table_copy();
    mark_subscribed(&mut copy, s("fresh"));
    assert_eq!(flag(&copy, "fresh"), Some(true));
    assert_eq!(entry(&p, "fresh"), Some(false));
    let q = PeerProvider::new(copy, s("me"), 2);
    assert!(q.dial_candidates(&s("k")).is_empty());
}
