//! The server's side of the election: sessions of the voters that connect,
//! the votes it receives, and the election of a leader.
use vstd::prelude::*;

use std::collections::HashMap;
use vstd::std_specs::iter::IteratorSpec;

use crate::config::{configured_nodes, get_nodes, Config};
use crate::shared::{from_ids_distinct, has_from, restarted, GlobalArea, Status, VCData, VCDataView, VFrom};
use crate::ws::{WsEvent, WsResponse, WsStatusCode};

verus! {

/// A generator of random numbers, from `rand`.
#[verifier::external_type_specification]
#[verifier::external_body]
pub struct ExThreadRng(rand::rngs::ThreadRng);

/// Calls `rand::thread_rng`. Nothing is claimed of the generator.
#[verifier::external_body]
fn thread_rng() -> (r: rand::rngs::ThreadRng) {
    rand::thread_rng()
}

/// Calls `rand::Rng::gen::<u64>` on `rng`: a random number, of which nothing is claimed.
#[verifier::external_body]
fn gen_u64(rng: &mut rand::rngs::ThreadRng) -> (r: u64) {
    rand::Rng::gen::<u64>(rng)
}

/// Outcome of a heartbeat.
#[derive(PartialEq, Eq, Structural, Clone, Copy, Debug)]
pub enum HbResult {
    Undefined,
    /// This server has just been elected leader.
    Election,
    /// The heartbeat went through.
    Passed,
    /// This leader lost touch with too many servers and has to step down.
    Follower,
}

/// Outcome of a vote.
#[derive(PartialEq, Eq, Structural, Clone, Copy, Debug)]
pub enum VoteResult {
    Undefined,
    /// The votes were taken.
    Accepted,
    /// The voter is the better candidate: the votes go the other way.
    Change,
    /// This server gave its votes away and takes none.
    Abandon,
    /// A leader is already known.
    Leader,
}

/// A heartbeat from one of the server's own sessions.
pub struct Heartbeat {
    pub session_id: usize,
    pub vcd: VCData,
    /// Number of servers the voter could not reach.
    pub hb_failed_count: usize,
    pub result: HbResult,
}

/// A vote from a voter.
pub struct Vote {
    pub session_id: usize,
    /// The voter's election data.
    pub vcd: VCData,
    /// Whether waiting for the lock timed out.
    pub timeout: bool,
    pub result: VoteResult,
}

/// A session went away.
pub struct Disconnect {
    pub session_id: usize,
    /// This server's id.
    pub myid: usize,
    /// The id of the voter's server.
    pub voter_id: usize,
    /// Whether the connection was closed for a missing heartbeat.
    pub closed: bool,
}

/// The same answer, to be sent to each of the `targets` sessions.
pub struct Broadcast {
    pub targets: Vec<usize>,
    pub response: WsResponse,
}

/// The server's bookkeeping of sessions and votes.
pub struct ChatServer {
    /// For each session, the id of the voter's server.
    pub session_keys: HashMap<usize, usize>,
    pub rng: rand::rngs::ThreadRng,
    /// For each voter's server, the votes it gave.
    pub vote_from: HashMap<usize, usize>,
    /// Failed heartbeats last reported; past half of the cluster a leader steps down.
    pub hb_failed_count: usize,
}

/// The smallest number of live servers with which an election may go on:
/// half of the cluster, rounded up.
pub open spec fn quorum(node_count: int) -> int {
    if node_count % 2 == 1 {
        (node_count + 1) / 2
    } else {
        node_count / 2
    }
}

/// The least number of live servers needed in a cluster of `node_count` servers.
pub fn expect_min_active_count(node_count: usize) -> (r: usize)
    ensures
        r == quorum(node_count as int),
{
    if node_count % 2 == 1 {
        node_count / 2 + 1
    } else {
        node_count / 2
    }
}

/// Sessions whose voter is not server `voter`.
pub open spec fn sessions_of_others(keys: Map<usize, usize>, voter: usize) -> Set<usize> {
    Set::new(|sid: usize| keys.contains_key(sid) && keys[sid] != voter)
}

/// The sessions of `keys` whose voter is not server `voter`, each once.
fn sessions_except_voter(keys: &HashMap<usize, usize>, voter: usize) -> (r: Vec<usize>)
    ensures
        r@.to_set() == sessions_of_others(keys@, voter),
        forall|sid: usize| r@.contains(sid) <==> (keys@.contains_key(sid) && keys@[sid] != voter),
        r@.no_duplicates(),
{
    let mut r: Vec<usize> = Vec::new();
    let ghost ks = vstd::std_specs::hash::spec_keys_iter(keys).remaining();
    for sid in it: keys.keys()
        invariant
            it.seq() == ks,
            it.seq().unref().to_set() == keys@.dom(),
            it.seq().no_duplicates(),
            forall|x: usize|
                r@.contains(x) <==> (exists|j: int|
                    0 <= j < it.index() && *it.seq()[j] == x && keys@[x] != voter),
            r@.no_duplicates(),
    {
        let ghost idx = it.index();
        assert(*it.seq()[idx] == *sid);
        assert(!r@.contains(*sid)) by {
            if r@.contains(*sid) {
                let j = choose|j: int| 0 <= j < idx && *it.seq()[j] == *sid && keys@[*sid] != voter;
                assert(it.seq()[j] == it.seq()[idx]);
            }
        }
        let ghost old_r = r@;
        match keys.get(sid) {
            Some(v) => {
                if *v != voter {
                    r.push(*sid);
                }
            },
            None => {},
        }
        assert forall|x: usize|
            r@.contains(x) <==> (exists|j: int|
                0 <= j < idx + 1 && *it.seq()[j] == x && keys@[x] != voter) by {
            if r@.contains(x) && x != *sid {
                assert(old_r.contains(x));
            }
            if x == *sid && keys@[x] != voter {
                assert(r@.last() == x);
            }
            if exists|j: int| 0 <= j < idx + 1 && *it.seq()[j] == x && keys@[x] != voter {
                let j = choose|j: int| 0 <= j < idx + 1 && *it.seq()[j] == x && keys@[x] != voter;
                if j < idx {
                    assert(old_r.contains(x));
                    let k = choose|k: int| 0 <= k < old_r.len() && old_r[k] == x;
                    assert(r@[k] == x);
                }
            }
        }
    }
    assert(r@.to_set() =~= sessions_of_others(keys@, voter)) by {
        assert forall|x: usize| sessions_of_others(keys@, voter).contains(x) implies r@.to_set().contains(
            x,
        ) by {
            assert(ks.unref().to_set().contains(x));
            let j = choose|j: int| 0 <= j < ks.len() && ks.unref()[j] == x;
            assert(*ks[j] == x);
        }
        assert forall|x: usize| r@.to_set().contains(x) implies sessions_of_others(keys@, voter).contains(
            x,
        ) by {
            assert(r@.contains(x));
            let j = choose|j: int| 0 <= j < ks.len() && *ks[j] == x && keys@[x] != voter;
            assert(ks.unref()[j] == x);
            assert(ks.unref().to_set().contains(x));
        }
    }
    assert forall|sid: usize| r@.contains(sid) <==> (keys@.contains_key(sid) && keys@[sid] != voter) by {
        assert(r@.contains(sid) <==> r@.to_set().contains(sid));
    }
    r
}

/// A map from `usize` keys cannot hold every key: it has at most `usize::MAX` of them.
proof fn lemma_keys_not_all_taken(m: &HashMap<usize, usize>)
    ensures
        exists|i: usize| !m@.contains_key(i),
{
    if forall|i: usize| m@.contains_key(i) {
        let dom = m@.dom();
        let f = |k: usize| k as int;
        let ints = dom.map(f);
        assert(dom.finite());
        assert(dom.len() == m.len());
        vstd::set_lib::lemma_map_size_bound(dom, ints, f);
        let range = vstd::set_lib::set_int_range(0, usize::MAX as int + 1);
        vstd::set_lib::lemma_int_range(0, usize::MAX as int + 1);
        assert forall|i: int| range.contains(i) implies ints.contains(i) by {
            let k = i as usize;
            assert(dom.contains(k));
            assert(f(k) == i);
        }
        vstd::set_lib::lemma_len_subset(range, ints);
        assert(false);
    }
}

/// `b` goes to every session whose voter is not server `voter`, to each once.
pub open spec fn broadcast_targets(b: Broadcast, keys: Map<usize, usize>, voter: usize) -> bool {
    b.targets@.to_set() == sessions_of_others(keys, voter) && b.targets@.no_duplicates()
}

/// The election is still open on this server: it has not given up its candidacy
/// and knows no leader.
pub open spec fn election_open(sga: &GlobalArea) -> bool {
    !sga.released && sga.status == Status::Looking
}

/// The number of servers that support this one, itself included. A server in a
/// later term first forgets the votes it took before.
pub open spec fn active_count(server: &ChatServer, sga: &GlobalArea) -> int {
    let votes = if sga.vcd.term > 0 {
        0usize
    } else {
        server.vote_from.len()
    };
    (votes | sga.vcd.poll_from.len()) + 1
}

/// The votes `server` records once the election begins.
pub open spec fn votes_at_election(server: &ChatServer, sga: &GlobalArea) -> Map<usize, usize> {
    if sga.vcd.term > 0 {
        Map::empty()
    } else {
        server.vote_from@
    }
}

/// The election is won: enough servers are live and this server holds enough votes.
pub open spec fn election_won(server: &ChatServer, sga: &GlobalArea, node_count: int) -> bool {
    &&& election_open(sga)
    &&& active_count(server, sga) >= quorum(node_count)
    &&& sga.vcd.poll >= quorum(node_count)
}

/// What an election needs of the machine: the counts fit their integers.
pub open spec fn election_fits(server: &ChatServer, sga: &GlobalArea, node_count: int) -> bool {
    election_open(sga) ==> {
        &&& active_count(server, sga) <= usize::MAX
        &&& election_won(server, sga, node_count) ==> sga.vcd.term < usize::MAX
    }
}

/// `r` is the answer by which a new leader announces itself: the voter's data
/// `vcd`, under the message "Copy to Voter".
pub open spec fn leader_announcement(r: WsResponse, vcd: VCDataView) -> bool {
    &&& r.event == WsEvent::LEADER
    &&& r.status_code == WsStatusCode::SUCCESS
    &&& r.mail_box@ == "Copy to Voter"@
    &&& r.vcd matches Some(v) && v@ == vcd
}

/// A heartbeat handler reads the size of the cluster: while the election is open,
/// or when a leader hears of a new count of failed heartbeats.
pub open spec fn heartbeat_reads_nodes(server: &ChatServer, sga: &GlobalArea, msg: &Heartbeat) -> bool {
    ||| election_open(sga)
    ||| (sga.status == Status::Leading && msg.hb_failed_count > 0 && msg.hb_failed_count
        != server.hb_failed_count)
}

/// The voter is the better candidate: a later term wins; in the same term more
/// transactions win; with as many transactions the larger server id wins.
pub open spec fn voter_wins(candidate: VCDataView, voter: VCDataView) -> bool {
    ||| candidate.term < voter.term
    ||| candidate.term == voter.term && candidate.tranx < voter.tranx
    ||| candidate.term == voter.term && candidate.tranx == voter.tranx && candidate.myid
        < voter.myid
}

/// `list` after recording, in order, each entry of `votes` whose server is not yet in it.
pub open spec fn absorb(list: Seq<VFrom>, votes: Seq<VFrom>) -> Seq<VFrom>
    decreases votes.len(),
{
    if votes.len() == 0 {
        list
    } else {
        let prev = absorb(list, votes.drop_last());
        if has_from(prev, votes.last().from_id) {
            prev
        } else {
            prev.push(votes.last())
        }
    }
}

/// The supporters a candidate records when it takes a vote: the voter's own
/// supporters, then the voter itself with the votes it gave.
pub open spec fn votes_taken(voter: VCDataView) -> Seq<VFrom> {
    voter.poll_from.push(VFrom { from_id: voter.myid, poll: voter.poll })
}

/// Half of a cluster, rounded up, is at least half of it and at most all of it.
pub proof fn lemma_quorum_is_half(node_count: int)
    requires
        node_count >= 0,
    ensures
        quorum(node_count) == (node_count + 1) / 2,
        2 * quorum(node_count) >= node_count,
        quorum(node_count) <= node_count,
{
}

/// In a cluster of odd size, two sets of servers that each reach the quorum share
/// a server, so two leaders cannot each gather a quorum from disjoint servers.
pub proof fn lemma_quorums_intersect(node_count: int, a: Set<int>, b: Set<int>)
    requires
        node_count >= 0,
        node_count % 2 == 1,
        a.finite(),
        b.finite(),
        a.subset_of(Set::new(|i: int| 0 <= i < node_count)),
        b.subset_of(Set::new(|i: int| 0 <= i < node_count)),
        a.len() >= quorum(node_count),
        b.len() >= quorum(node_count),
    ensures
        exists|i: int| a.contains(i) && b.contains(i),
{
    let all = Set::new(|i: int| 0 <= i < node_count);
    vstd::set_lib::lemma_int_range(0, node_count);
    assert(all =~= vstd::set_lib::set_int_range(0, node_count));
    if !(exists|i: int| a.contains(i) && b.contains(i)) {
        assert(a.disjoint(b));
        vstd::set_lib::lemma_set_disjoint_lens(a, b);
        assert((a + b).subset_of(all));
        vstd::set_lib::lemma_len_subset(a + b, all);
    }
}

/// The comparison of candidates is a strict total order on the term, then the
/// transactions, then the server id: it is irreflexive and transitive, and of two
/// servers with different ids exactly one wins.
pub proof fn lemma_vote_order_total(a: VCDataView, b: VCDataView, c: VCDataView)
    ensures
        !voter_wins(a, a),
        !(voter_wins(a, b) && voter_wins(b, a)),
        a.myid != b.myid ==> voter_wins(a, b) || voter_wins(b, a),
        voter_wins(a, b) && voter_wins(b, c) ==> voter_wins(a, c),
{
}

/// A later term decides alone: a voter in a later term than the candidate wins,
/// one in an earlier term loses, whatever their transactions and ids. Between
/// equal terms more transactions win, and with as many transactions the larger
/// server id wins.
pub proof fn lemma_later_term_wins(c: VCDataView, v: VCDataView)
    ensures
        c.term < v.term ==> voter_wins(c, v),
        c.term > v.term ==> !voter_wins(c, v),
        c.term == v.term && c.tranx < v.tranx ==> voter_wins(c, v),
        c.term == v.term && c.tranx > v.tranx ==> !voter_wins(c, v),
        c.term == v.term && c.tranx == v.tranx ==> (voter_wins(c, v) <==> c.myid < v.myid),
{
}

/// A bitwise or is at least each of its operands.
proof fn lemma_or_at_least(a: usize, b: usize)
    ensures
        (a | b) >= a,
        (a | b) >= b,
{
    assert((a | b) >= a && (a | b) >= b) by (bit_vector);
}

/// The live count of an election is never below the supporters recorded in the
/// shared data with the server itself, nor below the votes the server keeps once
/// the election begins with the server itself.
pub proof fn lemma_active_count_covers_supporters(server: &ChatServer, sga: &GlobalArea)
    ensures
        active_count(server, sga) >= sga.vcd.poll_from@.len() + 1,
        active_count(server, sga) >= votes_at_election(server, sga).len() + 1,
{
    let votes = if sga.vcd.term > 0 {
        0usize
    } else {
        server.vote_from.len()
    };
    lemma_or_at_least(votes, sga.vcd.poll_from.len());
    vstd::std_specs::hash::axiom_spec_hash_map_len(&server.vote_from);
}

/// An open election in which the recorded supporters, with this server, reach the
/// quorum of the cluster and this server holds a quorum of votes is won.
pub proof fn lemma_supporters_win_election(server: &ChatServer, sga: &GlobalArea, node_count: int)
    requires
        election_open(sga),
        sga.vcd.poll_from@.len() + 1 >= quorum(node_count),
        sga.vcd.poll >= quorum(node_count),
    ensures
        election_won(server, sga, node_count),
{
    lemma_active_count_covers_supporters(server, sga);
}

/// A broadcast to the sessions of the other servers reaches every open session
/// whose voter is not server `voter`, and no other session.
pub proof fn lemma_broadcast_reaches_others(b: Broadcast, keys: Map<usize, usize>, voter: usize)
    requires
        broadcast_targets(b, keys, voter),
    ensures
        forall|sid: usize|
            #[trigger] b.targets@.contains(sid) <==> (keys.contains_key(sid) && keys[sid] != voter),
{
    assert forall|sid: usize|
        #[trigger] b.targets@.contains(sid) <==> (keys.contains_key(sid) && keys[sid] != voter) by {
        assert(b.targets@.contains(sid) <==> b.targets@.to_set().contains(sid));
        assert(sessions_of_others(keys, voter).contains(sid) <==> (keys.contains_key(sid)
            && keys[sid] != voter));
    }
}

/// Recording votes keeps each supporter recorded once, and records the server of
/// every entry taken in.
pub proof fn lemma_absorb(list: Seq<VFrom>, votes: Seq<VFrom>)
    ensures
        from_ids_distinct(list) ==> from_ids_distinct(absorb(list, votes)),
        forall|i: int| 0 <= i < list.len() ==> absorb(list, votes).contains(#[trigger] list[i]),
        forall|i: int| 0 <= i < votes.len() ==> has_from(absorb(list, votes), #[trigger] votes[i].from_id),
    decreases votes.len(),
{
    if votes.len() > 0 {
        let prev = absorb(list, votes.drop_last());
        lemma_absorb(list, votes.drop_last());
        let v = votes.last();
        if !has_from(prev, v.from_id) {
            let next = prev.push(v);
            assert(next[prev.len() as int] == v);
            assert forall|i: int, j: int|
                0 <= i < next.len() && 0 <= j < next.len() && i != j && from_ids_distinct(prev)
                    implies (#[trigger] next[i]).from_id != (#[trigger] next[j]).from_id by {
                if i == prev.len() as int {
                    assert(prev[j] == next[j]);
                } else if j == prev.len() as int {
                    assert(prev[i] == next[i]);
                }
            }
            assert forall|i: int| 0 <= i < list.len() implies next.contains(#[trigger] list[i]) by {
                assert(prev.contains(list[i]));
                let k = choose|k: int| 0 <= k < prev.len() && prev[k] == list[i];
                assert(next[k] == list[i]);
            }
            assert forall|i: int| 0 <= i < votes.len() implies has_from(next, #[trigger] votes[i].from_id) by {
                if i < votes.len() - 1 {
                    assert(votes[i] == votes.drop_last()[i]);
                    assert(has_from(prev, votes.drop_last()[i].from_id));
                    let k = choose|k: int| 0 <= k < prev.len() && (#[trigger] prev[k]).from_id == votes[i].from_id;
                    assert(next[k] == prev[k]);
                } else {
                    assert(next[prev.len() as int].from_id == votes[i].from_id);
                }
            }
        } else {
            assert forall|i: int| 0 <= i < votes.len() implies has_from(prev, #[trigger] votes[i].from_id) by {
                if i < votes.len() - 1 {
                    assert(votes[i] == votes.drop_last()[i]);
                }
            }
        }
    }
}

/// A vote is taken: the election is open to votes and the candidate wins the comparison.
pub open spec fn vote_taken(sga: &GlobalArea, voter: VCDataView) -> bool {
    sga.status == Status::Looking && sga.vcd.poll != 0 && !voter_wins(sga.vcd@, voter)
}

impl ChatServer {
    /// A server with no sessions and no votes.
    pub fn new() -> (r: ChatServer)
        ensures
            r.session_keys@ == Map::<usize, usize>::empty(),
            r.vote_from@ == Map::<usize, usize>::empty(),
            r.hb_failed_count == 0,
    {
        ChatServer {
            session_keys: HashMap::new(),
            rng: thread_rng(),
            vote_from: HashMap::new(),
            hb_failed_count: 0,
        }
    }

    /// Records session `session_id` of the voter of server `voter_id`.
    pub fn register_session(&mut self, session_id: usize, voter_id: usize)
        ensures
            final(self).session_keys@ == old(self).session_keys@.insert(session_id, voter_id),
            final(self).vote_from@ == old(self).vote_from@,
            final(self).hb_failed_count == old(self).hb_failed_count,
    {
        self.session_keys.insert(session_id, voter_id);
    }

    /// Opens a session for the voter of server `voter_id` and returns its id: a
    /// random id, or, where that one is taken, the least id that is free (as
    /// `session_id_for` chooses). The id is unique: no open session has it.
    pub fn handle_connect(&mut self, voter_id: usize) -> (r: usize)
        ensures
            !old(self).session_keys@.contains_key(r),
            final(self).session_keys@ == old(self).session_keys@.insert(r, voter_id),
            final(self).vote_from@ == old(self).vote_from@,
            final(self).hb_failed_count == old(self).hb_failed_count,
    {
        let drawn = gen_u64(&mut self.rng) as usize;
        let session_id = self.session_id_for(drawn);
        self.register_session(session_id, voter_id);
        session_id
    }

    /// The id of a new session when `drawn` was drawn: `drawn` itself where no
    /// open session has it, else the least id that no open session has.
    pub fn session_id_for(&self, drawn: usize) -> (r: usize)
        ensures
            !self.session_keys@.contains_key(r),
            !self.session_keys@.contains_key(drawn) ==> r == drawn,
            self.session_keys@.contains_key(drawn) ==> forall|i: usize|
                i < r ==> self.session_keys@.contains_key(i),
    {
        if !self.session_keys.contains_key(&drawn) {
            drawn
        } else {
            self.free_session_id()
        }
    }

    /// The least session id that no open session has.
    fn free_session_id(&self) -> (r: usize)
        ensures
            !self.session_keys@.contains_key(r),
            forall|i: usize| i < r ==> self.session_keys@.contains_key(i),
    {
        let mut c: usize = 0;
        while self.session_keys.contains_key(&c) && c < usize::MAX
            invariant
                forall|i: usize| i < c ==> self.session_keys@.contains_key(i),
            decreases usize::MAX - c,
        {
            c = c + 1;
        }
        if self.session_keys.contains_key(&c) {
            proof {
                lemma_keys_not_all_taken(&self.session_keys);
            }
        }
        c
    }

    /// Starts the vote anew: the shared state is reset and the votes taken are forgotten.
    pub fn handle_reset(&mut self, sga: &mut GlobalArea)
        ensures
            restarted(old(sga), final(sga)),
            final(sga).vcd@.wf(),
            final(self).vote_from@ == Map::<usize, usize>::empty(),
            final(self).session_keys@ == old(self).session_keys@,
            final(self).hb_failed_count == old(self).hb_failed_count,
    {
        sga.reset_with_vote();
        self.vote_from = HashMap::new();
    }

    /// Elects this server leader once enough servers are live and it holds
    /// enough votes; the new leader's data then goes to every other session.
    fn electing_leader(&mut self, sga: &mut GlobalArea, msg: Heartbeat, node_count: usize) -> (r: (
        Heartbeat,
        Option<Broadcast>,
    ))
        requires
            election_fits(old(self), old(sga), node_count as int),
        ensures
            !election_open(old(sga)) ==> *final(sga) == *old(sga) && final(self).vote_from@
                == old(self).vote_from@ && r.0 == msg && r.1 is None,
            election_open(old(sga)) ==> final(self).vote_from@ == votes_at_election(
                old(self),
                old(sga),
            ),
            election_open(old(sga)) && !election_won(old(self), old(sga), node_count as int)
                ==> *final(sga) == *old(sga) && r.0 == msg && r.1 is None,
            election_won(old(self), old(sga), node_count as int) ==> {
                let leader = old(sga).vcd.myid;
                let term = (old(sga).vcd.term + 1) as usize;
                &&& final(sga).vcd@ == (VCDataView { leader, term, ..old(sga).vcd@ })
                &&& final(sga).status == Status::Leading
                &&& final(sga).released == old(sga).released
                &&& final(sga).poll_to == old(sga).poll_to
                &&& final(sga).hb_failed@ == old(sga).hb_failed@
                &&& final(sga).discovery_wait_timeout == old(sga).discovery_wait_timeout
                &&& r.0.session_id == msg.session_id
                &&& r.0.hb_failed_count == msg.hb_failed_count
                &&& r.0.result == HbResult::Election
                &&& r.0.vcd@ == (VCDataView { leader, term, ..msg.vcd@ })
                &&& r.1 matches Some(b) && broadcast_targets(b, old(self).session_keys@, leader)
                    && leader_announcement(b.response, r.0.vcd@)
            },
            final(self).session_keys@ == old(self).session_keys@,
            final(self).hb_failed_count == old(self).hb_failed_count,
    {
        let mut msg = msg;
        if sga.released {
            return (msg, None);
        }
        if sga.is_not_looking() {
            return (msg, None);
        }
        if sga.vcd.term > 0 {
            self.vote_from = HashMap::new();
        }
        let expect = expect_min_active_count(node_count);
        let current = (self.vote_from.len() | sga.vcd.poll_from.len()) + 1;
        if current < expect {
            return (msg, None);
        }
        if sga.vcd.poll >= expect {
            let leader = sga.vcd.myid;
            let term = sga.vcd.term + 1;
            sga.sync_leader(leader, term, Status::Leading);
            msg.result = HbResult::Election;
            msg.vcd.sync_leader(leader, term);
            let targets = sessions_except_voter(&self.session_keys, leader);
            let response = WsResponse::ok(
                WsEvent::LEADER,
                "Copy to Voter".to_owned(),
                Some(msg.vcd.clone()),
            );
            return (msg, Some(Broadcast { targets, response }));
        }
        (msg, None)
    }

    /// Handles a heartbeat of one of this server's sessions. While the election is
    /// open it tries to elect this server. A leader that hears of a new, nonzero
    /// count of failed heartbeats keeps the heartbeat as it is while the count stays
    /// below half of the cluster, and otherwise answers that it must step down and
    /// forgets its votes. Every other heartbeat is answered `Ok`; a leader first
    /// records the count it heard.
    pub fn handle_heartbeat(&mut self, sga: &mut GlobalArea, msg: Heartbeat, config: &Config) -> (r: (
        Heartbeat,
        Option<Broadcast>,
    ))
        requires
            heartbeat_reads_nodes(old(self), old(sga), &msg) ==> configured_nodes(*config).len()
                >= 3,
            election_fits(old(self), old(sga), configured_nodes(*config).len() as int),
        ensures
            ({
                let n = configured_nodes(*config).len() as int;
                match old(sga).status {
                    Status::Looking => {
                        &&& (!election_open(old(sga)) ==> *final(sga) == *old(sga)
                            && final(self).vote_from@ == old(self).vote_from@ && r.0 == msg
                            && r.1 is None)
                        &&& (election_open(old(sga)) ==> final(self).vote_from@
                            == votes_at_election(old(self), old(sga)))
                        &&& (election_open(old(sga)) && !election_won(old(self), old(sga), n)
                            ==> *final(sga) == *old(sga) && r.0 == msg && r.1 is None)
                        &&& (election_won(old(self), old(sga), n) ==> {
                            let leader = old(sga).vcd.myid;
                            let term = (old(sga).vcd.term + 1) as usize;
                            &&& final(sga).vcd@ == (VCDataView { leader, term, ..old(sga).vcd@ })
                            &&& final(sga).status == Status::Leading
                            &&& final(sga).released == old(sga).released
                            &&& final(sga).poll_to == old(sga).poll_to
                            &&& final(sga).hb_failed@ == old(sga).hb_failed@
                            &&& final(sga).discovery_wait_timeout
                                == old(sga).discovery_wait_timeout
                            &&& r.0.session_id == msg.session_id
                            &&& r.0.hb_failed_count == msg.hb_failed_count
                            &&& r.0.result == HbResult::Election
                            &&& r.0.vcd@ == (VCDataView { leader, term, ..msg.vcd@ })
                            &&& r.1 matches Some(b) && broadcast_targets(
                                b,
                                old(self).session_keys@,
                                leader,
                            ) && leader_announcement(b.response, r.0.vcd@)
                        })
                        &&& final(self).hb_failed_count == old(self).hb_failed_count
                    },
                    Status::Leading => {
                        &&& *final(sga) == *old(sga)
                        &&& r.1 is None
                        &&& if msg.hb_failed_count > 0 && msg.hb_failed_count
                            != old(self).hb_failed_count {
                            &&& final(self).hb_failed_count == old(self).hb_failed_count
                            &&& if msg.hb_failed_count < quorum(n) {
                                &&& r.0 == msg
                                &&& final(self).vote_from@ == old(self).vote_from@
                            } else {
                                &&& r.0 == (Heartbeat { result: HbResult::Follower, ..msg })
                                &&& final(self).vote_from@ == Map::<usize, usize>::empty()
                            }
                        } else {
                            &&& final(self).hb_failed_count == msg.hb_failed_count
                            &&& r.0 == (Heartbeat { result: HbResult::Passed, ..msg })
                            &&& final(self).vote_from@ == old(self).vote_from@
                        }
                    },
                    Status::Following => {
                        &&& *final(sga) == *old(sga)
                        &&& r.1 is None
                        &&& r.0 == (Heartbeat { result: HbResult::Passed, ..msg })
                        &&& final(self).vote_from@ == old(self).vote_from@
                        &&& final(self).hb_failed_count == old(self).hb_failed_count
                    },
                }
            }),
            final(self).session_keys@ == old(self).session_keys@,
            old(sga).vcd@.wf() ==> final(sga).vcd@.wf(),
    {
        let mut msg = msg;
        match sga.status {
            Status::Looking => {
                let node_count = if sga.released {
                    0
                } else {
                    get_nodes(config).len()
                };
                return self.electing_leader(sga, msg, node_count);
            },
            Status::Leading => {
                if msg.hb_failed_count > 0 && msg.hb_failed_count != self.hb_failed_count {
                    let node_count = get_nodes(config).len();
                    let expect = expect_min_active_count(node_count);
                    if msg.hb_failed_count < expect {
                        return (msg, None);
                    }
                    msg.result = HbResult::Follower;
                    self.vote_from = HashMap::new();
                    return (msg, None);
                }
                self.hb_failed_count = msg.hb_failed_count;
            },
            _ => {},
        }
        msg.result = HbResult::Passed;
        (msg, None)
    }

    /// Whether a vote from a voter with data `voter` would be taken: the election is
    /// open to votes and this server wins the comparison.
    pub fn vote_is_taken(sga: &GlobalArea, voter: &VCData) -> (r: bool)
        ensures
            r == vote_taken(sga, voter@),
    {
        if sga.status != Status::Looking || sga.vcd.poll == 0 {
            return false;
        }
        let (term, voter_term) = (sga.vcd.term, voter.term);
        let (tranx, voter_tranx) = (sga.vcd.tranx, voter.tranx);
        let wins = term < voter_term || (term == voter_term && tranx < voter_tranx) || (term
            == voter_term && tranx == voter_tranx && sga.vcd.myid < voter.myid);
        !wins
    }

    /// Handles a vote. A server that knows a leader answers `Leader` and passes
    /// on the leader and term; one that gave its votes away answers `Abandon`.
    /// Otherwise the better candidate wins: when the voter wins, the answer is
    /// `Change`; when this server wins, it takes the voter's votes, records the
    /// voter and the voter's supporters, and the voter is left with none.
    pub fn handle_vote(&mut self, sga: &mut GlobalArea, msg: Vote) -> (r: Vote)
        requires
            vote_taken(old(sga), msg.vcd@) ==> old(sga).vcd.poll + msg.vcd.poll <= usize::MAX,
        ensures
            r.session_id == msg.session_id,
            r.timeout == msg.timeout,
            final(sga).vcd.poll + r.vcd.poll == old(sga).vcd.poll + msg.vcd.poll,
            old(sga).vcd@.wf() ==> final(sga).vcd@.wf(),
            old(sga).status != Status::Looking ==> {
                &&& r.result == VoteResult::Leader
                &&& r.vcd@ == (VCDataView {
                    leader: old(sga).vcd.leader,
                    term: old(sga).vcd.term,
                    ..msg.vcd@
                })
                &&& *final(sga) == *old(sga)
                &&& final(self).vote_from@ == old(self).vote_from@
            },
            old(sga).status == Status::Looking && old(sga).vcd.poll == 0 ==> {
                &&& r == (Vote { result: VoteResult::Abandon, ..msg })
                &&& *final(sga) == *old(sga)
                &&& final(self).vote_from@ == old(self).vote_from@
            },
            old(sga).status == Status::Looking && old(sga).vcd.poll != 0 && voter_wins(
                old(sga).vcd@,
                msg.vcd@,
            ) ==> {
                &&& r == (Vote { result: VoteResult::Change, ..msg })
                &&& *final(sga) == *old(sga)
                &&& final(self).vote_from@ == old(self).vote_from@
            },
            vote_taken(old(sga), msg.vcd@) ==> {
                &&& r.result == VoteResult::Accepted
                &&& r.vcd@ == (VCDataView {
                    poll: 0,
                    poll_from: votes_taken(msg.vcd@),
                    ..msg.vcd@
                })
                &&& final(sga).vcd@ == (VCDataView {
                    poll: (old(sga).vcd.poll + msg.vcd.poll) as usize,
                    poll_from: absorb(old(sga).vcd.poll_from@, votes_taken(msg.vcd@)),
                    ..old(sga).vcd@
                })
                &&& final(sga).status == old(sga).status
                &&& final(sga).released == old(sga).released
                &&& final(sga).poll_to == old(sga).poll_to
                &&& final(sga).hb_failed@ == old(sga).hb_failed@
                &&& final(sga).discovery_wait_timeout == old(sga).discovery_wait_timeout
                &&& final(self).vote_from@ == old(self).vote_from@.insert(
                    msg.vcd.myid,
                    msg.vcd.poll,
                )
            },
            final(self).session_keys@ == old(self).session_keys@,
            final(self).hb_failed_count == old(self).hb_failed_count,
    {
        let ghost voter0 = msg.vcd@;
        let mut msg = msg;
        if sga.is_not_looking() {
            msg.result = VoteResult::Leader;
            msg.vcd.sync_leader(sga.vcd.leader, sga.vcd.term);
            return msg;
        }
        if sga.vcd.poll == 0 {
            msg.result = VoteResult::Abandon;
            return msg;
        }
        let myid = sga.vcd.myid;
        let vid = msg.vcd.myid;
        let term = sga.vcd.term;
        let voter_term = msg.vcd.term;
        let voter_poll = msg.vcd.poll;
        let mut change = false;
        if term > voter_term {
        } else if term < voter_term {
            change = true;
        } else {
            let tranx = sga.vcd.tranx;
            let voter_tranx = msg.vcd.tranx;
            if tranx > voter_tranx {
            } else if tranx < voter_tranx {
                change = true;
            } else {
                if myid < vid {
                    change = true;
                }
            }
        }
        if change {
            msg.result = VoteResult::Change;
        } else {
            let ghost sga0 = sga.vcd@;
            sga.vcd.poll = sga.vcd.poll + voter_poll;
            msg.vcd.poll = 0;
            self.vote_from.insert(msg.vcd.myid, voter_poll);
            let supporters = msg.vcd.poll_from.clone();
            assert(supporters@ =~= msg.vcd.poll_from@);
            let n = supporters.len();
            for i in 0..n
                invariant
                    n == supporters@.len(),
                    supporters@ == msg.vcd.poll_from@,
                    sga.vcd@ == (VCDataView {
                        poll: (sga0.poll + voter_poll) as usize,
                        poll_from: absorb(sga0.poll_from, supporters@.take(i as int)),
                        ..sga0
                    }),
                    sga.status == Status::Looking,
                    sga.released == old(sga).released,
                    sga.poll_to == old(sga).poll_to,
                    sga.hb_failed@ == old(sga).hb_failed@,
                    sga.discovery_wait_timeout == old(sga).discovery_wait_timeout,
            {
                assert(supporters@.take(i + 1).drop_last() =~= supporters@.take(i as int));
                sga.poll_from(supporters[i]);
            }
            let vfrom = VFrom::new(vid, voter_poll);
            assert(supporters@.take(n as int) =~= supporters@);
            assert(votes_taken(voter0).drop_last() =~= supporters@);
            sga.poll_from(vfrom);
            msg.vcd.poll_from.push(vfrom);
            msg.result = VoteResult::Accepted;
            proof {
                lemma_absorb(sga0.poll_from, votes_taken(voter0));
            }
        }
        msg
    }

    /// Handles the end of a session. Nothing happens when the connection was closed
    /// for a missing heartbeat, when the session is this server's own, when this
    /// server is the leader, or when the session is unknown. Otherwise the session
    /// is forgotten, and every session of another server hears that the leader
    /// (when the session was the leader's) or a follower went off line.
    pub fn handle_disconnect(&mut self, sga: &GlobalArea, msg: &Disconnect) -> (r: Option<Broadcast>)
        ensures
            ({
                let ignored = msg.closed || msg.voter_id == msg.myid || msg.myid == sga.vcd.leader
                    || !old(self).session_keys@.contains_key(msg.session_id);
                &&& ignored ==> r is None && final(self).session_keys@ == old(self).session_keys@
                &&& !ignored ==> {
                    let keys = old(self).session_keys@.remove(msg.session_id);
                    &&& final(self).session_keys@ == keys
                    &&& r matches Some(b) && broadcast_targets(b, keys, msg.myid)
                        && b.response.status_code == WsStatusCode::SUCCESS
                        && b.response.vcd is None
                        && if sga.vcd.leader == msg.voter_id {
                            b.response.event == WsEvent::LEADER_OFFLINE && b.response.mail_box@
                                == "Leader Offline"@
                        } else {
                            b.response.event == WsEvent::OFFLINE && b.response.mail_box@
                                == "Offline"@
                        }
                }
            }),
            final(self).vote_from@ == old(self).vote_from@,
            final(self).hb_failed_count == old(self).hb_failed_count,
    {
        if msg.closed || msg.voter_id == msg.myid {
            return None;
        }
        let myid = msg.myid;
        let leader = sga.vcd.leader;
        if myid == leader {
            return None;
        }
        match self.session_keys.remove(&msg.session_id) {
            Some(_) => {},
            None => {
                return None;
            },
        }
        let targets = sessions_except_voter(&self.session_keys, myid);
        let response = if leader == msg.voter_id {
            WsResponse::ok(WsEvent::LEADER_OFFLINE, "Leader Offline".to_owned(), None)
        } else {
            WsResponse::ok(WsEvent::OFFLINE, "Offline".to_owned(), None)
        };
        Some(Broadcast { targets, response })
    }
}

} // verus!
