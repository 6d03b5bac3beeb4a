use imvote::config::{Config, ConfigNode, ConfigServer};
use imvote::server::{
    expect_min_active_count, ChatServer, Disconnect, HbResult, Heartbeat, Vote, VoteResult,
};
use imvote::shared::{GlobalArea, Status, VCData, VFrom};
use imvote::ws::{WsEvent, WsStatusCode};

fn config(id: usize, nodes: usize) -> Config {
    Config {
        server: Some(ConfigServer {
            server_id: Some(id),
            port: None,
            worker: None,
            weight: None,
            data_root: None,
            discovery_wait_timeout: None,
        }),
        client: None,
        heartbeat: None,
        node: Some((1..=nodes).map(|i| ConfigNode { id: i, host: None, port: None }).collect()),
        watcher: None,
    }
}

fn vcd(myid: usize, term: usize, tranx: usize, poll: usize) -> VCData {
    VCData { leader: 0, myid, term, poll, tranx, poll_from: Vec::new(), poll_changed: Vec::new() }
}

fn heartbeat(myid: usize, failed: usize) -> Heartbeat {
    Heartbeat { session_id: 9, vcd: vcd(myid, 0, 0, 1), hb_failed_count: failed, result: HbResult::Undefined }
}

fn vote(v: VCData) -> Vote {
    Vote { session_id: 5, vcd: v, timeout: false, result: VoteResult::Undefined }
}

#[test]
fn quorum_is_half_rounded_up() {
    assert_eq!(expect_min_active_count(0), 0);
    assert_eq!(expect_min_active_count(1), 1);
    assert_eq!(expect_min_active_count(3), 2);
    assert_eq!(expect_min_active_count(4), 2);
    assert_eq!(expect_min_active_count(5), 3);
    assert_eq!(expect_min_active_count(usize::MAX), usize::MAX / 2 + 1);
}

#[test]
fn session_ids_are_unique() {
    let mut s = ChatServer::new();
    let mut ids = Vec::new();
    for voter in 0..20 {
        let id = s.handle_connect(voter);
        assert!(!ids.contains(&id));
        ids.push(id);
    }
    assert_eq!(s.session_keys.len(), 20);
    for (voter, id) in ids.iter().enumerate() {
        assert_eq!(s.session_keys.get(id), Some(&voter));
    }
}

#[test]
fn sessions_get_ids_and_are_registered() {
    let mut s = ChatServer::new();
    let a = s.handle_connect(2);
    s.register_session(77, 3);
    assert_eq!(s.session_keys.get(&a), Some(&2));
    assert_eq!(s.session_keys.get(&77), Some(&3));
}

#[test]
fn election_waits_for_enough_live_servers() {
    let c = config(1, 3);
    let mut s = ChatServer::new();
    let mut g = GlobalArea::new(&c);
    g.vcd.poll = 2;
    // only itself is live: 1 < 2
    let (hb, b) = s.handle_heartbeat(&mut g, heartbeat(1, 0), &c);
    assert_eq!(hb.result, HbResult::Undefined);
    assert!(b.is_none());
    assert_eq!(g.status, Status::Looking);
}

#[test]
fn election_with_quorum_makes_leader_and_broadcasts() {
    let c = config(1, 3);
    let mut s = ChatServer::new();
    s.register_session(10, 1);
    s.register_session(20, 2);
    s.register_session(30, 3);
    let mut g = GlobalArea::new(&c);
    g.poll_from(VFrom::new(2, 1));
    g.vcd.poll = 2;
    let (hb, b) = s.handle_heartbeat(&mut g, heartbeat(1, 0), &c);
    assert_eq!(hb.result, HbResult::Election);
    assert_eq!(hb.vcd.leader, 1);
    assert_eq!(hb.vcd.term, 1);
    assert_eq!(g.status, Status::Leading);
    assert!(g.is_leader(1));
    assert_eq!(g.vcd.term, 1);
    let b = b.unwrap();
    let mut t = b.targets.clone();
    t.sort();
    assert_eq!(t, vec![20, 30]);
    assert_eq!(b.response.event, WsEvent::LEADER);
    assert_eq!(b.response.status_code, WsStatusCode::SUCCESS);
    assert_eq!(b.response.mail_box, "Copy to Voter");
    assert_eq!(b.response.vcd.as_ref().unwrap().leader, 1);
}

#[test]
fn enough_live_servers_but_too_few_votes() {
    let c = config(1, 3);
    let mut s = ChatServer::new();
    let mut g = GlobalArea::new(&c);
    g.poll_from(VFrom::new(2, 1));
    let (hb, b) = s.handle_heartbeat(&mut g, heartbeat(1, 0), &c);
    assert_eq!(hb.result, HbResult::Undefined);
    assert!(b.is_none());
    assert_eq!(g.status, Status::Looking);
}

#[test]
fn released_candidate_does_not_elect() {
    let c = config(1, 3);
    let mut s = ChatServer::new();
    let mut g = GlobalArea::new(&c);
    g.released = true;
    g.vcd.poll = 3;
    let (hb, b) = s.handle_heartbeat(&mut g, heartbeat(1, 0), &c);
    assert_eq!(hb.result, HbResult::Undefined);
    assert!(b.is_none());
}

#[test]
fn later_term_forgets_votes_before_counting() {
    let c = config(1, 3);
    let mut s = ChatServer::new();
    let mut g = GlobalArea::new(&c);
    g.vcd.poll = 2;
    g.vcd.tranx = 1;
    // a vote from server 2 is taken: it counts as a live supporter
    let v = s.handle_vote(&mut g, vote(vcd(2, 0, 0, 1)));
    assert_eq!(v.result, VoteResult::Accepted);
    assert_eq!(s.vote_from.len(), 1);
    g.vcd.term = 1;
    g.vcd.poll_from.clear();
    let (hb, _) = s.handle_heartbeat(&mut g, heartbeat(1, 0), &c);
    assert!(s.vote_from.is_empty());
    assert_eq!(hb.result, HbResult::Undefined);
}

#[test]
fn leader_steps_down_when_half_the_heartbeats_fail() {
    let c = config(1, 3);
    let mut s = ChatServer::new();
    let mut g = GlobalArea::new(&c);
    g.sync_leader(1, 1, Status::Leading);
    let (hb, _) = s.handle_heartbeat(&mut g, heartbeat(1, 0), &c);
    assert_eq!(hb.result, HbResult::Passed);
    let (hb, _) = s.handle_heartbeat(&mut g, heartbeat(1, 1), &c);
    assert_eq!(hb.result, HbResult::Undefined);
    assert_eq!(s.hb_failed_count, 0);
    let (hb, _) = s.handle_heartbeat(&mut g, heartbeat(1, 2), &c);
    assert_eq!(hb.result, HbResult::Follower);
    assert_eq!(g.status, Status::Leading);
}

#[test]
fn leader_records_unchanged_failure_count() {
    let c = config(1, 3);
    let mut s = ChatServer::new();
    s.hb_failed_count = 1;
    let mut g = GlobalArea::new(&c);
    g.sync_leader(1, 1, Status::Leading);
    let (hb, _) = s.handle_heartbeat(&mut g, heartbeat(1, 1), &c);
    assert_eq!(hb.result, HbResult::Passed);
    let (hb, _) = s.handle_heartbeat(&mut g, heartbeat(1, 0), &c);
    assert_eq!(hb.result, HbResult::Passed);
    assert_eq!(s.hb_failed_count, 0);
}

#[test]
fn follower_heartbeat_passes() {
    let c = config(2, 3);
    let mut s = ChatServer::new();
    let mut g = GlobalArea::new(&c);
    g.sync_leader(1, 1, Status::Following);
    let (hb, b) = s.handle_heartbeat(&mut g, heartbeat(2, 3), &c);
    assert_eq!(hb.result, HbResult::Passed);
    assert!(b.is_none());
}

#[test]
fn vote_at_known_leader_passes_leader_on() {
    let c = config(1, 3);
    let mut s = ChatServer::new();
    let mut g = GlobalArea::new(&c);
    g.sync_leader(3, 4, Status::Following);
    let v = s.handle_vote(&mut g, vote(vcd(2, 0, 0, 1)));
    assert_eq!(v.result, VoteResult::Leader);
    assert_eq!(v.vcd.leader, 3);
    assert_eq!(v.vcd.term, 4);
    assert_eq!(v.vcd.poll, 1);
}

#[test]
fn candidate_without_votes_abandons() {
    let c = config(1, 3);
    let mut s = ChatServer::new();
    let mut g = GlobalArea::new(&c);
    g.vcd.poll = 0;
    let v = s.handle_vote(&mut g, vote(vcd(2, 0, 0, 1)));
    assert_eq!(v.result, VoteResult::Abandon);
    assert_eq!(g.vcd.poll, 0);
}

#[test]
fn better_voter_changes_the_vote() {
    let c = config(2, 3);
    let mut s = ChatServer::new();
    let mut g = GlobalArea::new(&c);
    g.vcd.term = 1;
    g.vcd.tranx = 5;
    // later term wins
    assert_eq!(s.handle_vote(&mut g, vote(vcd(1, 2, 0, 1))).result, VoteResult::Change);
    // same term, more transactions win
    assert_eq!(s.handle_vote(&mut g, vote(vcd(1, 1, 6, 1))).result, VoteResult::Change);
    // same term and transactions, larger id wins
    assert_eq!(s.handle_vote(&mut g, vote(vcd(3, 1, 5, 1))).result, VoteResult::Change);
    assert_eq!(g.vcd.poll, 1);
    assert!(s.vote_from.is_empty());
}

#[test]
fn accepted_vote_moves_the_votes() {
    let c = config(3, 3);
    let mut s = ChatServer::new();
    let mut g = GlobalArea::new(&c);
    g.poll_from(VFrom::new(4, 1));
    let mut voter = vcd(2, 0, 0, 2);
    voter.poll_from = vec![VFrom::new(1, 1), VFrom::new(4, 9)];
    let v = s.handle_vote(&mut g, vote(voter));
    assert_eq!(v.result, VoteResult::Accepted);
    // the votes held together are unchanged
    assert_eq!(g.vcd.poll + v.vcd.poll, 1 + 2);
    assert_eq!(g.vcd.poll, 3);
    assert_eq!(v.vcd.poll, 0);
    assert_eq!(
        g.vcd.poll_from,
        vec![VFrom::new(4, 1), VFrom::new(1, 1), VFrom::new(2, 2)]
    );
    assert_eq!(v.vcd.poll_from, vec![VFrom::new(1, 1), VFrom::new(4, 9), VFrom::new(2, 2)]);
    assert_eq!(s.vote_from.get(&2), Some(&2));
    assert_eq!(v.session_id, 5);
}

#[test]
fn disconnect_of_follower_and_leader() {
    let c = config(1, 3);
    let mut s = ChatServer::new();
    s.register_session(10, 1);
    s.register_session(20, 2);
    s.register_session(30, 3);
    let mut g = GlobalArea::new(&c);
    g.sync_leader(3, 1, Status::Following);
    let d = Disconnect { session_id: 20, myid: 1, voter_id: 2, closed: false };
    let b = s.handle_disconnect(&g, &d).unwrap();
    assert_eq!(b.targets, vec![30]);
    assert_eq!(b.response.event, WsEvent::OFFLINE);
    assert_eq!(b.response.mail_box, "Offline");
    assert!(s.session_keys.get(&20).is_none());
    let d = Disconnect { session_id: 30, myid: 1, voter_id: 3, closed: false };
    let b = s.handle_disconnect(&g, &d).unwrap();
    assert!(b.targets.is_empty());
    assert_eq!(b.response.event, WsEvent::LEADER_OFFLINE);
    assert_eq!(b.response.mail_box, "Leader Offline");
}

#[test]
fn ignored_disconnects() {
    let c = config(1, 3);
    let mut s = ChatServer::new();
    s.register_session(20, 2);
    let mut g = GlobalArea::new(&c);
    assert!(s.handle_disconnect(&g, &Disconnect { session_id: 20, myid: 1, voter_id: 2, closed: true }).is_none());
    assert!(s.handle_disconnect(&g, &Disconnect { session_id: 20, myid: 1, voter_id: 1, closed: false }).is_none());
    assert!(s.handle_disconnect(&g, &Disconnect { session_id: 99, myid: 1, voter_id: 2, closed: false }).is_none());
    g.sync_leader(1, 1, Status::Leading);
    assert!(s.handle_disconnect(&g, &Disconnect { session_id: 20, myid: 1, voter_id: 2, closed: false }).is_none());
    assert_eq!(s.session_keys.len(), 1);
}

#[test]
fn reset_restarts_the_vote() {
    let c = config(1, 3);
    let mut s = ChatServer::new();
    let mut g = GlobalArea::new(&c);
    let _ = s.handle_vote(&mut g, vote(vcd(0, 0, 0, 1)));
    g.sync_leader(1, 1, Status::Leading);
    s.handle_reset(&mut g);
    assert!(s.vote_from.is_empty());
    assert_eq!(g.status, Status::Looking);
    assert_eq!(g.vcd.poll, 1);
    assert_eq!(g.vcd.leader, 0);
}

#[test]
fn drawn_session_id_is_kept_when_free() {
    let mut s = ChatServer::new();
    assert_eq!(s.session_id_for(42), 42);
    s.register_session(42, 1);
    s.register_session(0, 1);
    s.register_session(1, 1);
    assert_eq!(s.session_id_for(42), 2);
    assert_eq!(s.session_id_for(7), 7);
}

#[test]
fn whether_a_vote_is_taken() {
    let c = config(2, 3);
    let mut g = GlobalArea::new(&c);
    assert!(ChatServer::vote_is_taken(&g, &vcd(1, 0, 0, 1)));
    assert!(!ChatServer::vote_is_taken(&g, &vcd(3, 0, 0, 1)));
    assert!(!ChatServer::vote_is_taken(&g, &vcd(1, 1, 0, 1)));
    g.vcd.poll = 0;
    assert!(!ChatServer::vote_is_taken(&g, &vcd(1, 0, 0, 1)));
    g.vcd.poll = 1;
    g.sync_leader(3, 1, Status::Following);
    assert!(!ChatServer::vote_is_taken(&g, &vcd(1, 0, 0, 1)));
}
