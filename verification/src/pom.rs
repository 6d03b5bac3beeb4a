//! Persistent election data: what a server stored as candidate and as voter.
use vstd::prelude::*;

use crate::config::{get_server_id, server_usize, Config, ConfigServer};

verus! {

/// Basic data of a server, stored as `<data_root>/<server_id>/c_state.json`
/// and `v_state.json`.
#[derive(PartialEq, Eq, Structural, Clone, Copy, Debug)]
pub struct State {
    /// Server id.
    pub id: usize,
    /// Election term.
    pub term: usize,
    /// Votes held.
    pub poll: usize,
    /// Transactions: raised by one after each synchronisation of data.
    pub tranx: usize,
    /// Lock.
    pub lock: bool,
}

impl State {
    /// All counts zero, unlocked.
    pub fn new() -> (r: Self)
        ensures
            r == (State { id: 0, term: 0, poll: 0, tranx: 0, lock: false }),
    {
        State { id: 0, term: 0, poll: 0, tranx: 0, lock: false }
    }
}

/// A candidate. Its data comes from the voters; it takes part in no vote itself.
pub struct Candidate {
    pub state: State,
}

impl Candidate {
    pub fn new() -> (r: Self)
        ensures
            r.state == (State { id: 0, term: 0, poll: 0, tranx: 0, lock: false }),
    {
        Candidate { state: State::new() }
    }
}

/// A voter. Every new voter holds one vote.
#[derive(PartialEq, Eq, Structural, Clone, Copy, Debug)]
pub struct Voter {
    pub state: State,
}

impl Voter {
    /// One vote, first transaction, first term.
    pub fn new() -> (r: Self)
        ensures
            r.state == (State { id: 0, term: 1, poll: 1, tranx: 1, lock: false }),
    {
        let mut state = State::new();
        state.poll = 1;
        state.tranx = 1;
        state.term = 1;
        Voter { state }
    }
}

/// The stored data of a server as candidate and as voter.
#[derive(PartialEq, Eq, Structural, Clone, Copy, Debug)]
pub struct PoManager {
    pub c_state: State,
    pub v_state: State,
}

/// The candidate data to use: what was read, else a fresh candidate's; its id
/// is the local server's.
pub open spec fn candidate_state(read: Option<State>, server_id: usize) -> State {
    let s = match read {
        Some(s) => s,
        None => State { id: 0, term: 0, poll: 0, tranx: 0, lock: false },
    };
    State { id: server_id, ..s }
}

/// The voter data to use: what was read, else a fresh voter's; its id is the
/// local server's.
pub open spec fn voter_state(read: Option<State>, server_id: usize) -> State {
    let s = match read {
        Some(s) => s,
        None => State { id: 0, term: 1, poll: 1, tranx: 1, lock: false },
    };
    State { id: server_id, ..s }
}

impl PoManager {
    /// File name of the candidate data.
    pub const C_FILE_NAME: &'static str = "c_state.json";

    /// File name of the voter data.
    pub const V_FILE_NAME: &'static str = "v_state.json";

    /// The data of the local server, from what was read of the two files
    /// (`None` where a file could not be read).
    pub fn new(c_read: Option<State>, v_read: Option<State>, config: &Config) -> (r: Self)
        ensures
            r.c_state == candidate_state(
                c_read,
                server_usize(*config, |s: ConfigServer| s.server_id, 1),
            ),
            r.v_state == voter_state(
                v_read,
                server_usize(*config, |s: ConfigServer| s.server_id, 1),
            ),
    {
        let server_id = get_server_id(config);
        let mut c_state = match c_read {
            Some(s) => s,
            None => Candidate::new().state,
        };
        c_state.id = server_id;
        let mut v_state = match v_read {
            Some(s) => s,
            None => Voter::new().state,
        };
        v_state.id = get_server_id(config);
        PoManager { c_state, v_state }
    }

    /// Takes over the voter data read from its file (`None` where it could not be
    /// read), and returns it.
    pub fn get_vdata(&mut self, v_read: Option<State>, config: &Config) -> (r: State)
        ensures
            r == voter_state(v_read, server_usize(*config, |s: ConfigServer| s.server_id, 1)),
            final(self).v_state == r,
            final(self).c_state == old(self).c_state,
    {
        let mut v_state = match v_read {
            Some(s) => s,
            None => Voter::new().state,
        };
        v_state.id = get_server_id(config);
        self.v_state = v_state;
        v_state
    }

    /// Takes over the candidate data read from its file (`None` where it could not
    /// be read), and returns it.
    pub fn get_cdata(&mut self, c_read: Option<State>, config: &Config) -> (r: State)
        ensures
            r == candidate_state(c_read, server_usize(*config, |s: ConfigServer| s.server_id, 1)),
            final(self).c_state == r,
            final(self).v_state == old(self).v_state,
    {
        let server_id = get_server_id(config);
        let mut c_state = match c_read {
            Some(s) => s,
            None => Candidate::new().state,
        };
        c_state.id = server_id;
        self.c_state = c_state;
        c_state
    }
}

} // verus!
