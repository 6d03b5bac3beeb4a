//! A client's connection to one server: where it connects, what it announces,
//! and how the server's answers change the announcement.
use vstd::prelude::*;

use crate::config::{server_usize, Config, ConfigServer};
use crate::db::Node;
use crate::ws::{Attribute, WsDataStatus, WsEvent, WsStatusCode};

verus! {

/// A client's connection to a server.
pub struct WebSocket {
    pub addr: String,
    pub port: u16,
    pub server_id: usize,
    /// What the client announces of its server.
    pub attr: Attribute,
}

impl WebSocket {
    /// The connection to `addr:port` for server `server_id`. `stored` is the node of
    /// that server as the local database keeps it, `None` where it keeps none, in
    /// which case the local server's fresh node stands in. The announcement holds
    /// one valid vote, in term 10, and asks this side to receive data.
    pub fn new(addr: String, port: u16, server_id: usize, stored: Option<Node>, config: &Config) -> (r:
        Self)
        ensures
            r.addr == addr,
            r.port == port,
            r.server_id == server_id,
            r.attr == (Attribute {
                id: match stored {
                    Some(n) => n.id,
                    None => server_usize(*config, |s: ConfigServer| s.server_id, 1),
                },
                term: 10,
                poll: 1,
                tranx: match stored {
                    Some(n) => n.tranx,
                    None => 0,
                },
                status: WsDataStatus::RECV,
            }),
    {
        let node = match stored {
            Some(n) => n,
            None => Node::new(config),
        };
        let mut attr = Attribute {
            id: node.id,
            term: node.term,
            poll: node.poll,
            tranx: node.tranx,
            status: WsDataStatus::RECV,
        };
        attr.poll = 1;
        attr.term = 10;
        WebSocket { addr, port, server_id, attr }
    }
}

/// What the client sends on each tick of its timer.
pub struct ClientRequest {
    pub event: WsEvent,
    pub attr: Attribute,
}

/// A server's answer to the client.
pub struct ClientResponse {
    pub event: WsEvent,
    pub status_code: WsStatusCode,
    pub mail_box: String,
    pub data: Option<Attribute>,
}

/// The request sent on a tick: a `JOIN` with the current announcement.
pub fn client_tick_request(attr: &Attribute) -> (r: ClientRequest)
    ensures
        r == (ClientRequest { event: WsEvent::JOIN, attr: *attr }),
{
    ClientRequest { event: WsEvent::JOIN, attr: *attr }
}

/// Takes in an answer of the server; returns whether the connection stops. It
/// stops on an answer that failed or reports an error. A successful `JOIN`
/// answer with data makes the announcement hold the votes the server names;
/// every other answer changes nothing.
pub fn on_client_response(attr: &mut Attribute, v: &ClientResponse) -> (stop: bool)
    ensures
        stop == (v.status_code != WsStatusCode::SUCCESS),
        *final(attr) == match v.data {
            Some(d) if !stop && v.event == WsEvent::JOIN => Attribute { poll: d.poll, ..*old(attr) },
            _ => *old(attr),
        },
{
    match v.status_code {
        WsStatusCode::SUCCESS => {},
        WsStatusCode::FAILED | WsStatusCode::ERROR => {
            return true;
        },
    }
    match v.event {
        WsEvent::JOIN => {
            if let Some(data) = &v.data {
                attr.poll = data.poll;
            }
        },
        _ => {},
    }
    false
}

} // verus!
