use imvote::config::{Config, ConfigServer, ConfigNode};
use imvote::db::{user_auth_from_row, DateTime, Node};
use imvote::pom::{Candidate, PoManager, State, Voter};
use imvote::voter::{client_tick_request, on_client_response, ClientResponse, WebSocket};
use imvote::ws::{Attribute, WsDataStatus, WsEvent, WsResponse, WsStatusCode};

fn config(id: usize) -> Config {
    Config {
        server: Some(ConfigServer {
            server_id: Some(id),
            port: Some(7100),
            worker: None,
            weight: Some(3),
            data_root: None,
            discovery_wait_timeout: None,
        }),
        client: None,
        heartbeat: None,
        node: Some(vec![ConfigNode { id: 1, host: None, port: None }]),
        watcher: None,
    }
}

#[test]
fn fresh_states() {
    assert_eq!(State::new(), State { id: 0, term: 0, poll: 0, tranx: 0, lock: false });
    assert_eq!(Candidate::new().state, State::new());
    assert_eq!(Voter::new().state, State { id: 0, term: 1, poll: 1, tranx: 1, lock: false });
    assert_eq!(PoManager::C_FILE_NAME, "c_state.json");
    assert_eq!(PoManager::V_FILE_NAME, "v_state.json");
}

#[test]
fn manager_falls_back_to_fresh_states_with_own_id() {
    let m = PoManager::new(None, None, &config(4));
    assert_eq!(m.c_state, State { id: 4, term: 0, poll: 0, tranx: 0, lock: false });
    assert_eq!(m.v_state, State { id: 4, term: 1, poll: 1, tranx: 1, lock: false });
}

#[test]
fn manager_keeps_stored_states_under_own_id() {
    let stored = State { id: 9, term: 5, poll: 2, tranx: 7, lock: true };
    let mut m = PoManager::new(Some(stored), Some(stored), &config(4));
    assert_eq!(m.c_state, State { id: 4, ..stored });
    let v = m.get_vdata(None, &config(4));
    assert_eq!(v, State { id: 4, term: 1, poll: 1, tranx: 1, lock: false });
    assert_eq!(m.v_state, v);
    let c = m.get_cdata(Some(State { id: 1, term: 8, poll: 0, tranx: 3, lock: false }), &config(4));
    assert_eq!(c, State { id: 4, term: 8, poll: 0, tranx: 3, lock: false });
    assert_eq!(m.c_state, c);
    assert_eq!(m.v_state, v);
}

#[test]
fn fresh_node_of_local_server() {
    let n = Node::new(&config(2));
    assert_eq!(n.event, "");
    assert_eq!(n.id, 2);
    assert_eq!(n.header, 0);
    assert_eq!(n.host, "127.0.0.1");
    assert_eq!(n.port, 7100);
    assert_eq!(n.weight, 3);
    assert_eq!((n.term, n.poll, n.tranx, n.last_hb_time), (0, 0, 0, 0));
}

#[test]
fn client_connection_announces_one_vote() {
    let w = WebSocket::new("h".to_string(), 1, 2, None, &config(5));
    assert_eq!(w.addr, "h");
    assert_eq!(w.server_id, 2);
    assert_eq!(w.attr, Attribute { id: 5, term: 10, poll: 1, tranx: 0, status: WsDataStatus::RECV });
    let mut stored = Node::new(&config(2));
    stored.tranx = 6;
    stored.poll = 4;
    let w = WebSocket::new("h".to_string(), 1, 2, Some(stored), &config(5));
    assert_eq!(w.attr, Attribute { id: 2, term: 10, poll: 1, tranx: 6, status: WsDataStatus::RECV });
}

#[test]
fn response_constructors() {
    let r = WsResponse::ok(WsEvent::JOIN, "a".to_string(), None);
    assert_eq!(r.status_code, WsStatusCode::SUCCESS);
    let r = WsResponse::failed(WsEvent::JOIN, "b".to_string(), None);
    assert_eq!(r.status_code, WsStatusCode::FAILED);
    let r = WsResponse::error(WsEvent::COPY, "c".to_string(), None);
    assert_eq!(r.status_code, WsStatusCode::ERROR);
    assert_eq!(r.event, WsEvent::COPY);
    assert_eq!(r.mail_box, "c");
}

#[test]
fn credential_rows_read_their_expiry() {
    let u = user_auth_from_row(3, "k".to_string(), "s".to_string(), "10.0.0.0/8".to_string(), "2024-02-29 13:45:07".to_string());
    assert_eq!(u.id, 3);
    assert_eq!(u.app_key, "k");
    assert_eq!(u.app_secret, "s");
    assert_eq!(u.host, "10.0.0.0/8");
    assert_eq!(
        u.expired_datetime,
        Some(DateTime { year: 2024, month: 2, day: 29, hour: 13, minute: 45, second: 7, nanosecond: 0 })
    );
    let never = user_auth_from_row(0, "k".to_string(), "s".to_string(), "".to_string(), "".to_string());
    assert_eq!(
        never.expired_datetime,
        Some(DateTime { year: 9999, month: 12, day: 31, hour: 1, minute: 1, second: 1, nanosecond: 0 })
    );
    let bad = user_auth_from_row(1, "k".to_string(), "s".to_string(), "".to_string(), "2023-02-30 00:00:00".to_string());
    assert_eq!(bad.expired_datetime, None);
    let bad = user_auth_from_row(1, "k".to_string(), "s".to_string(), "".to_string(), "tomorrow".to_string());
    assert_eq!(bad.expired_datetime, None);
}

#[test]
fn client_answers_change_the_announcement() {
    let mut a = Attribute { id: 1, term: 10, poll: 1, tranx: 0, status: WsDataStatus::RECV };
    let req = client_tick_request(&a);
    assert_eq!(req.event, WsEvent::JOIN);
    assert_eq!(req.attr, a);
    let data = Attribute { id: 2, term: 3, poll: 7, tranx: 4, status: WsDataStatus::NONTODO };
    let join = ClientResponse { event: WsEvent::JOIN, status_code: WsStatusCode::SUCCESS, mail_box: "Joined".to_string(), data: Some(data) };
    assert!(!on_client_response(&mut a, &join));
    assert_eq!(a, Attribute { id: 1, term: 10, poll: 7, tranx: 0, status: WsDataStatus::RECV });
    let copy = ClientResponse { event: WsEvent::COPY, status_code: WsStatusCode::SUCCESS, mail_box: "Copy".to_string(), data: Some(Attribute { poll: 9, ..data }) };
    assert!(!on_client_response(&mut a, &copy));
    assert_eq!(a.poll, 7);
    let failed = ClientResponse { event: WsEvent::JOIN, status_code: WsStatusCode::FAILED, mail_box: "x".to_string(), data: Some(Attribute { poll: 9, ..data }) };
    assert!(on_client_response(&mut a, &failed));
    assert_eq!(a.poll, 7);
    let error = ClientResponse { event: WsEvent::JOIN, status_code: WsStatusCode::ERROR, mail_box: "x".to_string(), data: None };
    assert!(on_client_response(&mut a, &error));
}
