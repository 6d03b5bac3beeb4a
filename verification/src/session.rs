//! A server's session with one voter: the answer to each request, and the
//! heartbeat check of the connection.
use vstd::prelude::*;

use crate::shared::VCData;
use crate::ws::{WsEvent, WsRequest, WsResponse, WsStatusCode};

verus! {

/// Seconds between two pings to the client.
pub const HEARTBEAT_INTERVAL_SECS: u64 = 5;

/// Seconds of silence after which a client is dropped.
pub const CLIENT_TIMEOUT_SECS: u64 = 10;

/// `r` has the given event, status and message, and carries the data `vcd`.
pub open spec fn answer_is(
    r: WsResponse,
    event: WsEvent,
    status: WsStatusCode,
    text: Seq<char>,
    vcd: Option<VCData>,
) -> bool {
    r.event == event && r.status_code == status && r.mail_box@ == text && r.vcd == vcd
}

/// The answer to an empty request.
pub fn empty_request_reply() -> (r: WsResponse)
    ensures
        answer_is(r, WsEvent::UNKNOWN, WsStatusCode::ERROR, "Empty WsRequest"@, None),
{
    WsResponse::error(WsEvent::UNKNOWN, "Empty WsRequest".to_owned(), None)
}

/// The answer to a binary message.
pub fn binary_message_reply() -> (r: WsResponse)
    ensures
        answer_is(r, WsEvent::UNKNOWN, WsStatusCode::ERROR, "Unexpected binary"@, None),
{
    WsResponse::error(WsEvent::UNKNOWN, "Unexpected binary".to_owned(), None)
}

/// The answer to a text that is no request; `cause` says why it does not read.
pub fn parse_error_reply(text: &str, cause: &str) -> (r: WsResponse)
    ensures
        answer_is(
            r,
            WsEvent::UNKNOWN,
            WsStatusCode::ERROR,
            "ParseError: `"@ + text@ + "` is not valid JSON on WsRequest, cause: "@ + cause@,
            None,
        ),
{
    let mut mail_box = "ParseError: `".to_owned();
    mail_box.append(text);
    mail_box.append("` is not valid JSON on WsRequest, cause: ");
    mail_box.append(cause);
    WsResponse::error(WsEvent::UNKNOWN, mail_box, None)
}

/// The answer to a request: joining and copying succeed and carry the voter's
/// data back; every other event is refused as unsupported, with the voter's data.
pub fn answer_request(req: WsRequest) -> (r: WsResponse)
    ensures
        match req.event {
            WsEvent::JOIN => answer_is(r, WsEvent::JOIN, WsStatusCode::SUCCESS, "Joined"@, Some(req.vcd)),
            WsEvent::COPY => answer_is(r, WsEvent::COPY, WsStatusCode::SUCCESS, "Copy"@, Some(req.vcd)),
            _ => answer_is(
                r,
                req.event,
                WsStatusCode::FAILED,
                "Unsupported event"@,
                Some(req.vcd),
            ),
        },
{
    let event = req.event;
    match event {
        WsEvent::JOIN => WsResponse::ok(event, "Joined".to_owned(), Some(req.vcd)),
        WsEvent::COPY => WsResponse::ok(event, "Copy".to_owned(), Some(req.vcd)),
        _ => WsResponse::failed(event, "Unsupported event".to_owned(), Some(req.vcd)),
    }
}

/// What the session does on a tick of its heartbeat timer.
#[derive(PartialEq, Eq, Structural, Clone, Copy, Debug)]
pub enum HbCheck {
    /// The connection is already closed: nothing.
    Nothing,
    /// The client was silent too long: close the connection and tell the server.
    Disconnect,
    /// Ping the client.
    Ping,
}

/// The heartbeat check: a closed connection needs nothing; a client silent for
/// more than `CLIENT_TIMEOUT_SECS` seconds (`elapsed_nanos` since its last
/// heartbeat) is dropped; any other client is pinged.
pub fn heartbeat_check(closed: bool, elapsed_nanos: u128) -> (r: HbCheck)
    ensures
        r == if closed {
            HbCheck::Nothing
        } else if elapsed_nanos > CLIENT_TIMEOUT_SECS * 1_000_000_000 {
            HbCheck::Disconnect
        } else {
            HbCheck::Ping
        },
{
    if closed {
        return HbCheck::Nothing;
    }
    let timeout: u128 = CLIENT_TIMEOUT_SECS as u128 * 1_000_000_000u128;
    if elapsed_nanos > timeout {
        return HbCheck::Disconnect;
    }
    HbCheck::Ping
}

} // verus!
