//! A voter's decisions: what it sends to a server on each tick, and how the
//! server's answers change the shared election state.
use vstd::prelude::*;

use crate::shared::{has_from, restarted, GlobalArea, Status, VCDataView, VTo};
use crate::ws::{WsEvent, WsResponse, WsStatusCode};

verus! {

/// A voter's connection to one server of the cluster.
pub struct VoteHandler {
    pub addr: String,
    pub port: u16,
}

/// What a voter does on a tick of its timer.
#[derive(PartialEq, Eq, Structural, Clone, Copy, Debug)]
pub enum TickAction {
    /// Send nothing this time.
    Skip,
    /// Send a request with this event and the current election data.
    Send(WsEvent),
    /// This server holds no vote: wait until another thread changes the shared
    /// state, and send the request only if that happens in time.
    WaitThenSend(WsEvent),
}

/// The voter has nothing to send to server `server_id` while the election is open:
/// it gave up its candidacy, already holds that server's votes, gave its votes to
/// it, or its vote went over to it.
pub open spec fn nothing_to_send(sga: &GlobalArea, server_id: usize) -> bool {
    ||| sga.released
    ||| has_from(sga.vcd.poll_from@, server_id)
    ||| (sga.poll_to matches Some(t) && t.to_id == server_id)
    ||| sga.vcd.poll_changed@.contains(server_id)
}

/// The event of a voter's request: a heartbeat to its own server, otherwise a vote
/// while the election is open and a sync once it is over.
pub open spec fn tick_event(sga: &GlobalArea, myid: usize, server_id: usize) -> WsEvent {
    if myid == server_id {
        WsEvent::HEARTBEAT
    } else if sga.status == Status::Looking {
        WsEvent::VOTE
    } else {
        WsEvent::SYNC
    }
}

/// What the voter of server `myid` does on a tick of its connection to server `server_id`.
pub open spec fn tick_action(sga: &GlobalArea, myid: usize, server_id: usize) -> TickAction {
    if sga.status == Status::Looking && nothing_to_send(sga, server_id) {
        TickAction::Skip
    } else if sga.status == Status::Looking && sga.vcd.poll == 0 {
        TickAction::WaitThenSend(tick_event(sga, myid, server_id))
    } else {
        TickAction::Send(tick_event(sga, myid, server_id))
    }
}

/// Once a leader is known the tick sends at once, whatever votes this server holds:
/// a heartbeat to its own server and a sync to every other. While the election is
/// open a voter that gave up its candidacy sends nothing; one with something to
/// send sends a heartbeat to its own server and a vote to every other, at once
/// where this server holds votes and only after a wait where it holds none.
pub proof fn lemma_tick_action_by_state(sga: &GlobalArea, myid: usize, server_id: usize)
    ensures
        sga.status != Status::Looking ==> tick_action(sga, myid, server_id) == TickAction::Send(
            if myid == server_id {
                WsEvent::HEARTBEAT
            } else {
                WsEvent::SYNC
            },
        ),
        sga.status == Status::Looking && sga.released ==> tick_action(sga, myid, server_id)
            == TickAction::Skip,
        sga.status == Status::Looking && !nothing_to_send(sga, server_id) && sga.vcd.poll != 0
            ==> tick_action(sga, myid, server_id) == TickAction::Send(
            if myid == server_id {
                WsEvent::HEARTBEAT
            } else {
                WsEvent::VOTE
            },
        ),
        sga.status == Status::Looking && !nothing_to_send(sga, server_id) && sga.vcd.poll == 0
            ==> tick_action(sga, myid, server_id) == TickAction::WaitThenSend(
            if myid == server_id {
                WsEvent::HEARTBEAT
            } else {
                WsEvent::VOTE
            },
        ),
{
}

impl VoteHandler {
    pub fn new(addr: String, port: u16) -> (r: Self)
        ensures
            r.addr == addr,
            r.port == port,
    {
        VoteHandler { addr, port }
    }
}

/// Decides what the voter of server `myid` sends to server `server_id` on a tick.
pub fn on_tick(sga: &mut GlobalArea, myid: usize, server_id: usize) -> (r: TickAction)
    ensures
        r == tick_action(old(sga), myid, server_id),
        *final(sga) == *old(sga),
{
    let mut event;
    if !sga.is_not_looking() {
        if sga.released {
            return TickAction::Skip;
        }
        if sga.is_poll_from(&server_id) {
            return TickAction::Skip;
        }
        if sga.is_poll_to(&server_id) {
            return TickAction::Skip;
        }
        if crate::shared::vec_contains(&sga.vcd.poll_changed, server_id) {
            return TickAction::Skip;
        }
        event = WsEvent::VOTE;
        if myid == server_id {
            event = WsEvent::HEARTBEAT;
        }
        if sga.vcd.poll == 0 {
            return TickAction::WaitThenSend(event);
        }
    } else {
        event = WsEvent::SYNC;
    }
    if myid == server_id {
        event = WsEvent::HEARTBEAT;
    }
    TickAction::Send(event)
}

/// Takes in an answer `v` of server `server_id` to the voter of server `myid`, and
/// returns whether threads waiting on the shared state are to be woken.
/// The leader going off line restarts the vote. A vote taken (a successful `VOTE`
/// answer with data) makes this server give up its candidacy, records that its
/// votes went to `myid`, and takes over the votes left in the answer; only then
/// are waiting threads woken. `CHANGED` records that the vote went over to
/// `server_id`. `LEADER` with data makes a looking server follow the leader and
/// term it names. Every other answer changes nothing.
pub fn on_response(sga: &mut GlobalArea, myid: usize, server_id: usize, v: &WsResponse) -> (r: bool)
    ensures
        old(sga).vcd@.wf() ==> final(sga).vcd@.wf(),
        match v.event {
            WsEvent::LEADER_OFFLINE => {
                &&& !r
                &&& restarted(old(sga), final(sga))
            },
            WsEvent::VOTE => match v.vcd {
                Some(vcd) if v.status_code == WsStatusCode::SUCCESS => {
                    &&& r
                    &&& final(sga).released
                    &&& final(sga).poll_to == Some(VTo { to_id: myid, poll: old(sga).vcd.poll })
                    &&& final(sga).vcd@ == (VCDataView { poll: vcd.poll, ..old(sga).vcd@ })
                    &&& final(sga).status == old(sga).status
                    &&& final(sga).discovery_wait_timeout == old(sga).discovery_wait_timeout
                    &&& final(sga).hb_failed@ == old(sga).hb_failed@
                },
                _ => !r && *final(sga) == *old(sga),
            },
            WsEvent::CHANGED => {
                &&& !r
                &&& old(sga).vcd.poll_changed@.contains(server_id) ==> final(sga).vcd@
                    == old(sga).vcd@
                &&& !old(sga).vcd.poll_changed@.contains(server_id) ==> final(sga).vcd@ == (
                VCDataView {
                    poll_changed: old(sga).vcd.poll_changed@.push(server_id),
                    ..old(sga).vcd@
                })
                &&& final(sga).poll_to == old(sga).poll_to
                &&& final(sga).released == old(sga).released
                &&& final(sga).status == old(sga).status
                &&& final(sga).discovery_wait_timeout == old(sga).discovery_wait_timeout
                &&& final(sga).hb_failed@ == old(sga).hb_failed@
            },
            WsEvent::LEADER => match v.vcd {
                Some(vcd) if old(sga).status == Status::Looking => {
                    &&& !r
                    &&& final(sga).vcd@ == (VCDataView {
                        leader: vcd.leader,
                        term: vcd.term,
                        ..old(sga).vcd@
                    })
                    &&& final(sga).status == Status::Following
                    &&& final(sga).poll_to == old(sga).poll_to
                    &&& final(sga).released == old(sga).released
                    &&& final(sga).discovery_wait_timeout == old(sga).discovery_wait_timeout
                    &&& final(sga).hb_failed@ == old(sga).hb_failed@
                },
                _ => !r && *final(sga) == *old(sga),
            },
            _ => !r && *final(sga) == *old(sga),
        },
{
    match v.event {
        WsEvent::LEADER_OFFLINE => {
            sga.reset_with_vote();
            false
        },
        WsEvent::VOTE => {
            if v.status_code == WsStatusCode::SUCCESS {
                if let Some(vcd) = &v.vcd {
                    sga.released = true;
                    sga.poll_to = Some(VTo::new(myid, sga.vcd.poll));
                    sga.vcd.poll = vcd.poll;
                    return true;
                }
            }
            false
        },
        WsEvent::CHANGED => {
            sga.changed_poll(server_id);
            false
        },
        WsEvent::LEADER => {
            if let Some(vcd) = &v.vcd {
                if !sga.is_not_looking() {
                    sga.sync_leader(vcd.leader, vcd.term, Status::Following);
                }
            }
            false
        },
        _ => false,
    }
}

/// Whether an answer of the server ends the connection: one that reports an error.
pub fn answer_stops(v: &WsResponse) -> (r: bool)
    ensures
        r == (v.status_code == WsStatusCode::ERROR),
{
    match v.status_code {
        WsStatusCode::ERROR => true,
        _ => false,
    }
}

/// After a failed connection to server `server_id`: when that server is the leader,
/// the vote starts anew. Returns whether it did.
pub fn on_connect_failed(sga: &mut GlobalArea, server_id: usize) -> (r: bool)
    ensures
        r == (old(sga).vcd.leader == server_id),
        r ==> restarted(old(sga), final(sga)),
        old(sga).vcd@.wf() ==> final(sga).vcd@.wf(),
        !r ==> *final(sga) == *old(sga),
{
    if sga.is_leader(server_id) {
        sga.reset_with_vote();
        return true;
    }
    false
}

} // verus!
