//! The election state that the server and its voters share.
use vstd::prelude::*;

use std::collections::HashMap;

use crate::config::{get_server_discovery_wait_timeout, get_server_id, server_usize, Config, ConfigServer};

verus! {

/// The leader id that means "no leader".
pub const NON_LEADER: usize = 0;

/// Where a server stands in the election.
#[derive(PartialEq, Eq, Structural, Clone, Copy, Debug)]
pub enum Status {
    Looking,
    Following,
    Leading,
}

/// Votes received from one server.
#[derive(PartialEq, Eq, Structural, Clone, Copy, Debug)]
pub struct VFrom {
    /// The server that gave them.
    pub from_id: usize,
    /// How many votes it gave.
    pub poll: usize,
}

impl VFrom {
    pub fn new(from_id: usize, poll: usize) -> (r: Self)
        ensures
            r == (VFrom { from_id, poll }),
    {
        VFrom { from_id, poll }
    }
}

/// Votes given to one server.
#[derive(PartialEq, Eq, Structural, Clone, Copy, Debug)]
pub struct VTo {
    /// The server that received them.
    pub to_id: usize,
    /// How many votes went there.
    pub poll: usize,
}

impl VTo {
    pub fn new(to_id: usize, poll: usize) -> (r: Self)
        ensures
            r == (VTo { to_id, poll }),
    {
        VTo { to_id, poll }
    }
}

/// The core election data of a server.
#[derive(Debug)]
pub struct VCData {
    /// Id of the leader, `NON_LEADER` while there is none.
    pub leader: usize,
    /// This server's id.
    pub myid: usize,
    /// Election term.
    pub term: usize,
    /// Votes held.
    pub poll: usize,
    /// Transactions: raised by one after each synchronisation of data.
    pub tranx: usize,
    /// Supporters and the votes each gave.
    pub poll_from: Vec<VFrom>,
    /// Servers to which this server's vote went over after a lost comparison.
    pub poll_changed: Vec<usize>,
}

/// The content of a `VCData`.
pub struct VCDataView {
    pub leader: usize,
    pub myid: usize,
    pub term: usize,
    pub poll: usize,
    pub tranx: usize,
    pub poll_from: Seq<VFrom>,
    pub poll_changed: Seq<usize>,
}

impl View for VCData {
    type V = VCDataView;

    open spec fn view(&self) -> VCDataView {
        VCDataView {
            leader: self.leader,
            myid: self.myid,
            term: self.term,
            poll: self.poll,
            tranx: self.tranx,
            poll_from: self.poll_from@,
            poll_changed: self.poll_changed@,
        }
    }
}

/// Some entry of `list` comes from server `id`.
pub open spec fn has_from(list: Seq<VFrom>, id: usize) -> bool {
    exists|i: int| 0 <= i < list.len() && (#[trigger] list[i]).from_id == id
}

/// No two entries of `list` come from the same server.
pub open spec fn from_ids_distinct(list: Seq<VFrom>) -> bool {
    forall|i: int, j: int|
        0 <= i < list.len() && 0 <= j < list.len() && i != j ==> (#[trigger] list[i]).from_id
            != (#[trigger] list[j]).from_id
}

impl VCDataView {
    /// Each supporter is recorded once, and so is each server a vote went over to.
    pub open spec fn wf(self) -> bool {
        from_ids_distinct(self.poll_from) && self.poll_changed.no_duplicates()
    }
}

impl Clone for VCData {
    fn clone(&self) -> (r: Self)
        ensures
            r@ == self@,
    {
        let poll_from = self.poll_from.clone();
        let poll_changed = self.poll_changed.clone();
        assert(poll_from@ =~= self.poll_from@);
        assert(poll_changed@ =~= self.poll_changed@);
        VCData {
            leader: self.leader,
            myid: self.myid,
            term: self.term,
            poll: self.poll,
            tranx: self.tranx,
            poll_from,
            poll_changed,
        }
    }
}

impl VCData {
    /// Fresh data holding `poll` votes, for the server that `config` describes.
    pub fn new(poll: usize, config: &Config) -> (r: Self)
        ensures
            r@ == (VCDataView {
                leader: NON_LEADER,
                myid: server_usize(*config, |s: ConfigServer| s.server_id, 1),
                term: 0,
                poll,
                tranx: 0,
                poll_from: Seq::empty(),
                poll_changed: Seq::empty(),
            }),
    {
        VCData {
            leader: NON_LEADER,
            myid: get_server_id(config),
            term: 0,
            poll,
            tranx: 0,
            poll_from: Vec::new(),
            poll_changed: Vec::new(),
        }
    }

    /// Takes over the leader and term of an election.
    pub fn sync_leader(&mut self, leader: usize, term: usize)
        ensures
            final(self)@ == (VCDataView { leader, term, ..old(self)@ }),
    {
        self.leader = leader;
        self.term = term;
    }

    /// Starts a new vote: no leader, one vote of its own, no supporters and no
    /// vote gone over.
    pub fn reset_with_vote(&mut self)
        ensures
            final(self)@ == (VCDataView {
                leader: NON_LEADER,
                poll: 1,
                poll_from: Seq::empty(),
                poll_changed: Seq::empty(),
                ..old(self)@
            }),
    {
        self.leader = NON_LEADER;
        self.poll = 1;
        self.poll_from = Vec::new();
        self.poll_changed = Vec::new();
    }
}

/// The state that the server and its voters share, under one lock.
pub struct GlobalArea {
    /// Election data.
    pub vcd: VCData,
    /// Where this server's votes went.
    pub poll_to: Option<VTo>,
    /// Whether this server gave up its candidacy.
    pub released: bool,
    /// Where this server stands; `Looking` after start.
    pub status: Status,
    /// Seconds to wait for a majority of live servers before giving up, so that
    /// the cluster does not split.
    pub discovery_wait_timeout: usize,
    /// Servers whose heartbeat failed.
    pub hb_failed: HashMap<usize, usize>,
}

/// `after` is `before` once the vote starts anew: no leader, one vote of its own,
/// no supporters, no vote gone over, no votes given away, the candidacy taken up
/// again and the server looking; the rest as it was.
pub open spec fn restarted(before: &GlobalArea, after: &GlobalArea) -> bool {
    &&& after.vcd@ == (VCDataView {
        leader: NON_LEADER,
        poll: 1,
        poll_from: Seq::empty(),
        poll_changed: Seq::empty(),
        ..before.vcd@
    })
    &&& after.poll_to is None
    &&& !after.released
    &&& after.status == Status::Looking
    &&& after.discovery_wait_timeout == before.discovery_wait_timeout
    &&& after.hb_failed@ == before.hb_failed@
}

/// `after` is `before` once the server steps down: the reset of `restarted`,
/// except that the server follows.
pub open spec fn demoted(before: &GlobalArea, after: &GlobalArea) -> bool {
    &&& after.vcd@ == (VCDataView {
        leader: NON_LEADER,
        poll: 1,
        poll_from: Seq::empty(),
        poll_changed: Seq::empty(),
        ..before.vcd@
    })
    &&& after.poll_to is None
    &&& !after.released
    &&& after.status == Status::Following
    &&& after.discovery_wait_timeout == before.discovery_wait_timeout
    &&& after.hb_failed@ == before.hb_failed@
}

impl GlobalArea {
    /// The shared state of a freshly started server: looking, holding one vote.
    pub fn new(config: &Config) -> (r: Self)
        ensures
            r.vcd@ == (VCDataView {
                leader: NON_LEADER,
                myid: server_usize(*config, |s: ConfigServer| s.server_id, 1),
                term: 0,
                poll: 1,
                tranx: 0,
                poll_from: Seq::empty(),
                poll_changed: Seq::empty(),
            }),
            r.poll_to is None,
            !r.released,
            r.status == Status::Looking,
            r.discovery_wait_timeout == server_usize(
                *config,
                |s: ConfigServer| s.discovery_wait_timeout,
                60,
            ),
            r.hb_failed@ == Map::<usize, usize>::empty(),
    {
        GlobalArea {
            vcd: VCData::new(1, config),
            poll_to: None,
            released: false,
            status: Status::Looking,
            discovery_wait_timeout: get_server_discovery_wait_timeout(config),
            hb_failed: HashMap::new(),
        }
    }

    /// Starts a new vote: the election data is reset, no votes given away, the
    /// candidacy taken up again, and the server looking.
    pub fn reset_with_vote(&mut self)
        ensures
            restarted(old(self), final(self)),
    {
        self.vcd.reset_with_vote();
        self.poll_to = None;
        self.released = false;
        self.status = Status::Looking;
    }

    /// Steps down to follower: the vote data is reset as by `reset_with_vote`,
    /// and the server follows.
    pub fn to_following(&mut self)
        ensures
            demoted(old(self), final(self)),
    {
        self.vcd.reset_with_vote();
        self.poll_to = None;
        self.released = false;
        self.status = Status::Following;
    }

    /// Records the votes `v` unless votes from the same server are already
    /// recorded; returns the votes recorded, 0 where they were not.
    pub fn poll_from(&mut self, v: VFrom) -> (r: usize)
        ensures
            has_from(old(self).vcd.poll_from@, v.from_id) ==> r == 0 && final(self).vcd@
                == old(self).vcd@,
            !has_from(old(self).vcd.poll_from@, v.from_id) ==> r == v.poll && final(self).vcd@
                == (VCDataView { poll_from: old(self).vcd.poll_from@.push(v), ..old(self).vcd@ }),
            final(self).poll_to == old(self).poll_to,
            final(self).released == old(self).released,
            final(self).status == old(self).status,
            final(self).discovery_wait_timeout == old(self).discovery_wait_timeout,
            final(self).hb_failed@ == old(self).hb_failed@,
            old(self).vcd@.wf() ==> final(self).vcd@.wf(),
    {
        if !self.is_poll_from(&v.from_id) {
            let ghost before = self.vcd.poll_from@;
            self.vcd.poll_from.push(v);
            assert forall|i: int, j: int|
                0 <= i < self.vcd.poll_from@.len() && 0 <= j < self.vcd.poll_from@.len() && i
                    != j && from_ids_distinct(before) implies (#[trigger] self.vcd.poll_from@[i]).from_id
                != (#[trigger] self.vcd.poll_from@[j]).from_id by {
                if i == before.len() as int {
                    assert(before[j] == self.vcd.poll_from@[j]);
                } else if j == before.len() as int {
                    assert(before[i] == self.vcd.poll_from@[i]);
                }
            }
            return v.poll;
        }
        0
    }

    /// Whether votes from server `id` are recorded.
    pub fn is_poll_from(&mut self, id: &usize) -> (r: bool)
        ensures
            r == has_from(old(self).vcd.poll_from@, *id),
            *final(self) == *old(self),
    {
        let n = self.vcd.poll_from.len();
        for i in 0..n
            invariant
                n == self.vcd.poll_from@.len(),
                forall|j: int| 0 <= j < i ==> (#[trigger] self.vcd.poll_from@[j]).from_id != *id,
        {
            if self.vcd.poll_from[i].from_id == *id {
                return true;
            }
        }
        false
    }

    /// Whether this server's votes went to server `id`.
    pub fn is_poll_to(&mut self, id: &usize) -> (r: bool)
        ensures
            r == (old(self).poll_to matches Some(t) && t.to_id == *id),
            *final(self) == *old(self),
    {
        if let Some(v) = &self.poll_to {
            if v.to_id == *id {
                return true;
            }
        }
        false
    }

    /// A copy of the election data.
    pub fn get_vcd(&self) -> (r: VCData)
        ensures
            r@ == self.vcd@,
    {
        self.vcd.clone()
    }

    /// Records that this server's vote went over to server `id`, once.
    pub fn changed_poll(&mut self, id: usize)
        ensures
            old(self).vcd.poll_changed@.contains(id) ==> final(self).vcd@ == old(self).vcd@,
            !old(self).vcd.poll_changed@.contains(id) ==> final(self).vcd@ == (VCDataView {
                poll_changed: old(self).vcd.poll_changed@.push(id),
                ..old(self).vcd@
            }),
            final(self).poll_to == old(self).poll_to,
            final(self).released == old(self).released,
            final(self).status == old(self).status,
            final(self).discovery_wait_timeout == old(self).discovery_wait_timeout,
            final(self).hb_failed@ == old(self).hb_failed@,
            old(self).vcd@.wf() ==> final(self).vcd@.wf(),
    {
        if !vec_contains(&self.vcd.poll_changed, id) {
            self.vcd.poll_changed.push(id);
        }
    }

    /// Takes over the leader and term of an election and the given standing.
    pub fn sync_leader(&mut self, leader: usize, term: usize, status: Status)
        ensures
            final(self).vcd@ == (VCDataView { leader, term, ..old(self).vcd@ }),
            final(self).status == status,
            final(self).poll_to == old(self).poll_to,
            final(self).released == old(self).released,
            final(self).discovery_wait_timeout == old(self).discovery_wait_timeout,
            final(self).hb_failed@ == old(self).hb_failed@,
    {
        self.vcd.sync_leader(leader, term);
        self.status = status;
    }

    /// Whether server `id` is the leader.
    pub fn is_leader(&self, id: usize) -> (r: bool)
        ensures
            r == (self.vcd.leader == id),
    {
        self.vcd.leader == id
    }

    /// Whether this server is leading or following, that is, no longer looking.
    pub fn is_not_looking(&self) -> (r: bool)
        ensures
            r == (self.status != Status::Looking),
    {
        match self.status {
            Status::Leading | Status::Following => true,
            _ => false,
        }
    }
}

/// Whether `v` holds `x`.
pub(crate) fn vec_contains(v: &Vec<usize>, x: usize) -> (r: bool)
    ensures
        r == v@.contains(x),
{
    let n = v.len();
    for i in 0..n
        invariant
            n == v@.len(),
            forall|j: int| 0 <= j < i ==> v@[j] != x,
    {
        if v[i] == x {
            assert(v@[i as int] == x);
            return true;
        }
    }
    false
}

} // verus!
