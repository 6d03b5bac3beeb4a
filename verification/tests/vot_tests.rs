use imvote::config::{Config, ConfigServer};
use imvote::shared::{GlobalArea, Status, VCData, VFrom, VTo};
use imvote::vot::{answer_stops, on_connect_failed, on_response, on_tick, TickAction, VoteHandler};
use imvote::ws::{WsEvent, WsResponse};

fn area(id: usize) -> GlobalArea {
    GlobalArea::new(&Config {
        server: Some(ConfigServer {
            server_id: Some(id),
            port: None,
            worker: None,
            weight: None,
            data_root: None,
            discovery_wait_timeout: None,
        }),
        client: None,
        heartbeat: None,
        node: None,
        watcher: None,
    })
}

fn data(leader: usize, term: usize, poll: usize) -> VCData {
    VCData { leader, myid: 9, term, poll, tranx: 0, poll_from: Vec::new(), poll_changed: Vec::new() }
}

#[test]
fn handler_keeps_address() {
    let h = VoteHandler::new("10.0.0.1".to_string(), 7000);
    assert_eq!(h.addr, "10.0.0.1");
    assert_eq!(h.port, 7000);
}

#[test]
fn tick_sends_vote_or_heartbeat_while_looking() {
    let mut g = area(1);
    assert_eq!(on_tick(&mut g, 1, 2), TickAction::Send(WsEvent::VOTE));
    assert_eq!(on_tick(&mut g, 1, 1), TickAction::Send(WsEvent::HEARTBEAT));
}

#[test]
fn tick_skips_when_nothing_to_send() {
    let mut g = area(1);
    g.poll_from(VFrom::new(2, 1));
    assert_eq!(on_tick(&mut g, 1, 2), TickAction::Skip);
    assert_eq!(on_tick(&mut g, 1, 3), TickAction::Send(WsEvent::VOTE));
    g.poll_to = Some(VTo::new(3, 1));
    assert_eq!(on_tick(&mut g, 1, 3), TickAction::Skip);
    g.changed_poll(4);
    assert_eq!(on_tick(&mut g, 1, 4), TickAction::Skip);
    g.released = true;
    assert_eq!(on_tick(&mut g, 1, 5), TickAction::Skip);
}

#[test]
fn tick_waits_without_votes() {
    let mut g = area(1);
    g.vcd.poll = 0;
    assert_eq!(on_tick(&mut g, 1, 2), TickAction::WaitThenSend(WsEvent::VOTE));
    assert_eq!(on_tick(&mut g, 1, 1), TickAction::WaitThenSend(WsEvent::HEARTBEAT));
}

#[test]
fn tick_syncs_once_a_leader_is_known() {
    let mut g = area(1);
    g.sync_leader(2, 1, Status::Following);
    g.released = true;
    assert_eq!(on_tick(&mut g, 1, 2), TickAction::Send(WsEvent::SYNC));
    assert_eq!(on_tick(&mut g, 1, 1), TickAction::Send(WsEvent::HEARTBEAT));
}

#[test]
fn vote_taken_gives_up_candidacy() {
    let mut g = area(1);
    g.vcd.poll = 3;
    let v = WsResponse::ok(WsEvent::VOTE, "Voted".to_string(), Some(data(0, 0, 0)));
    assert!(on_response(&mut g, 1, 2, &v));
    assert!(g.released);
    assert_eq!(g.poll_to, Some(VTo { to_id: 1, poll: 3 }));
    assert_eq!(g.vcd.poll, 0);
}

#[test]
fn refused_vote_changes_nothing() {
    let mut g = area(1);
    let v = WsResponse::failed(WsEvent::VOTE, "Abandoned".to_string(), Some(data(0, 0, 0)));
    assert!(!on_response(&mut g, 1, 2, &v));
    assert!(!g.released);
    assert_eq!(g.vcd.poll, 1);
    let v = WsResponse::ok(WsEvent::VOTE, "Voted".to_string(), None);
    assert!(!on_response(&mut g, 1, 2, &v));
    assert!(g.poll_to.is_none());
}

#[test]
fn changed_vote_is_recorded() {
    let mut g = area(1);
    let v = WsResponse::ok(WsEvent::CHANGED, "Changed".to_string(), None);
    assert!(!on_response(&mut g, 1, 2, &v));
    assert_eq!(g.vcd.poll_changed, vec![2]);
    assert_eq!(on_tick(&mut g, 1, 2), TickAction::Skip);
}

#[test]
fn leader_broadcast_makes_follower() {
    let mut g = area(1);
    let v = WsResponse::ok(WsEvent::LEADER, "Copy to Voter".to_string(), Some(data(3, 2, 0)));
    assert!(!on_response(&mut g, 1, 3, &v));
    assert_eq!(g.status, Status::Following);
    assert!(g.is_leader(3));
    assert_eq!(g.vcd.term, 2);
    // a server that already follows keeps its leader
    let v = WsResponse::ok(WsEvent::LEADER, "Copy to Voter".to_string(), Some(data(4, 5, 0)));
    on_response(&mut g, 1, 4, &v);
    assert!(g.is_leader(3));
}

#[test]
fn leader_offline_restarts_the_vote() {
    let mut g = area(1);
    g.sync_leader(3, 2, Status::Following);
    g.released = true;
    let v = WsResponse::ok(WsEvent::LEADER_OFFLINE, "Leader Offline".to_string(), None);
    assert!(!on_response(&mut g, 1, 3, &v));
    assert_eq!(g.status, Status::Looking);
    assert!(!g.released);
    assert_eq!(g.vcd.leader, 0);
    let v = WsResponse::ok(WsEvent::OFFLINE, "Offline".to_string(), None);
    g.sync_leader(3, 2, Status::Following);
    assert!(!on_response(&mut g, 1, 3, &v));
    assert_eq!(g.status, Status::Following);
}

#[test]
fn failed_connection_to_leader_restarts_the_vote() {
    let mut g = area(1);
    g.sync_leader(3, 2, Status::Following);
    assert!(!on_connect_failed(&mut g, 2));
    assert_eq!(g.status, Status::Following);
    assert!(on_connect_failed(&mut g, 3));
    assert_eq!(g.status, Status::Looking);
    assert_eq!(g.vcd.leader, 0);
}

#[test]
fn only_error_answers_stop_the_connection() {
    assert!(answer_stops(&WsResponse::error(WsEvent::VOTE, "e".to_string(), None)));
    assert!(!answer_stops(&WsResponse::failed(WsEvent::VOTE, "f".to_string(), None)));
    assert!(!answer_stops(&WsResponse::ok(WsEvent::VOTE, "o".to_string(), None)));
}
