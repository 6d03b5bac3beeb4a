//! The messages that voters and servers exchange over the websocket.
use vstd::prelude::*;

use crate::shared::VCData;

verus! {

/// A voter's request to a server.
pub struct WsRequest {
    /// What the voter asks for.
    pub event: WsEvent,
    /// The voter's election data.
    pub vcd: VCData,
}

/// A server's answer.
pub struct WsResponse {
    /// What the answer is about.
    pub event: WsEvent,
    /// How the request went.
    pub status_code: WsStatusCode,
    /// A message for the log.
    pub mail_box: String,
    /// Election data, where the answer carries any.
    pub vcd: Option<VCData>,
}

/// How a request went.
#[allow(non_camel_case_types)]
#[derive(PartialEq, Eq, Structural, Clone, Copy, Debug)]
pub enum WsStatusCode {
    /// Handled.
    SUCCESS,
    /// Refused.
    FAILED,
    /// Something went wrong while handling it.
    ERROR,
}

/// What a message is about.
#[allow(non_camel_case_types)]
#[derive(PartialEq, Eq, Structural, Clone, Copy, Debug)]
pub enum WsEvent {
    UNKNOWN,
    JOIN,
    COPY,
    /// A vote.
    VOTE,
    /// The vote goes over to another candidate.
    CHANGED,
    /// Data passed on to the other servers.
    BROADCAST,
    /// A leader has been elected.
    LEADER,
    /// A follower went off line.
    OFFLINE,
    /// The leader went off line.
    LEADER_OFFLINE,
    /// A voter's heartbeat to its own server.
    HEARTBEAT,
    /// A voter's periodic message once a leader is known.
    SYNC,
}

/// Which side has to synchronise its data.
#[allow(non_camel_case_types)]
#[derive(PartialEq, Eq, Structural, Clone, Copy, Debug)]
pub enum WsDataStatus {
    /// This server has to receive data.
    RECV,
    /// The other servers have to receive data.
    SEND,
    /// Both sides are in the same term.
    NONTODO,
}

/// What a voter announces of its server.
#[derive(PartialEq, Eq, Structural, Clone, Copy, Debug)]
pub struct Attribute {
    pub id: usize,
    /// Election term.
    pub term: usize,
    /// Votes held.
    pub poll: usize,
    /// Transactions.
    pub tranx: usize,
    /// Synchronisation needed.
    pub status: WsDataStatus,
}

impl WsResponse {
    /// A successful answer.
    pub fn ok(event: WsEvent, mail_box: String, vcd: Option<VCData>) -> (r: Self)
        ensures
            r == (WsResponse { event, status_code: WsStatusCode::SUCCESS, mail_box, vcd }),
    {
        WsResponse { event, status_code: WsStatusCode::SUCCESS, mail_box, vcd }
    }

    /// A refusal.
    pub fn failed(event: WsEvent, mail_box: String, vcd: Option<VCData>) -> (r: Self)
        ensures
            r == (WsResponse { event, status_code: WsStatusCode::FAILED, mail_box, vcd }),
    {
        WsResponse { event, status_code: WsStatusCode::FAILED, mail_box, vcd }
    }

    /// An answer that reports an error.
    pub fn error(event: WsEvent, mail_box: String, vcd: Option<VCData>) -> (r: Self)
        ensures
            r == (WsResponse { event, status_code: WsStatusCode::ERROR, mail_box, vcd }),
    {
        WsResponse { event, status_code: WsStatusCode::ERROR, mail_box, vcd }
    }
}

} // verus!
