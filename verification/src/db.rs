//! A server's records of cluster nodes and of credentials.
use vstd::prelude::*;

use crate::config::{
    get_server_id, get_server_port, get_server_weight, server_usize, Config, ConfigServer,
    DEFAULT_PORT, or_default,
};

verus! {

/// A cluster node as the local database keeps it.
pub struct Node {
    /// Last event.
    pub event: String,
    /// Server id.
    pub id: usize,
    /// Whether the node is the leader.
    pub header: usize,
    pub host: String,
    pub port: u16,
    /// Election weight.
    pub weight: usize,
    /// Election term.
    pub term: usize,
    /// Votes held.
    pub poll: usize,
    /// Transactions: raised by one after each synchronisation of data.
    pub tranx: usize,
    /// Time of the last heartbeat, as a timestamp.
    pub last_hb_time: i64,
}

impl Node {
    /// The local server as a fresh node at 127.0.0.1: its id, port and weight from
    /// the configuration, no event, not leader, every count zero.
    pub fn new(config: &Config) -> (r: Self)
        ensures
            r.event@ == ""@,
            r.id == server_usize(*config, |s: ConfigServer| s.server_id, 1),
            r.header == 0,
            r.host@ == "127.0.0.1"@,
            r.port == match config.server {
                Some(s) => or_default(s.port, DEFAULT_PORT),
                None => DEFAULT_PORT,
            },
            r.weight == server_usize(*config, |s: ConfigServer| s.weight, 1),
            r.term == 0,
            r.poll == 0,
            r.tranx == 0,
            r.last_hb_time == 0,
    {
        Node {
            event: "".to_owned(),
            id: get_server_id(config),
            header: 0,
            host: "127.0.0.1".to_owned(),
            port: get_server_port(config),
            weight: get_server_weight(config),
            term: 0,
            poll: 0,
            tranx: 0,
            last_hb_time: 0,
        }
    }
}

/// A date and time of day, without time zone. A leap second reads as second 59
/// with at least 1_000_000_000 nanoseconds.
#[derive(PartialEq, Eq, Structural, Clone, Copy, Debug)]
pub struct DateTime {
    pub year: i32,
    pub month: u32,
    pub day: u32,
    pub hour: u32,
    pub minute: u32,
    pub second: u32,
    pub nanosecond: u32,
}

/// What `chrono::NaiveDateTime::parse_from_str` makes of `text` read with the
/// format `fmt`: the date and time, or `None` where the text does not fit.
pub uninterp spec fn naive_datetime_parse(text: Seq<char>, fmt: Seq<char>) -> Option<DateTime>;

/// Calls `chrono::NaiveDateTime::parse_from_str` and takes the fields of the
/// result. The contract claims only that the result is a function of the text and
/// the format. It admits only the format of stored dates: with a timestamp field
/// (`%s`) and a leap second, chrono can overflow and panic.
#[verifier::external_body]
fn parse_naive_datetime(text: &str, fmt: &str) -> (r: Option<DateTime>)
    requires
        fmt@ == datetime_format(),
    ensures
        r == naive_datetime_parse(text@, fmt@),
{
    match chrono::NaiveDateTime::parse_from_str(text, fmt) {
        Ok(d) => Some(DateTime {
            year: chrono::Datelike::year(&d),
            month: chrono::Datelike::month(&d),
            day: chrono::Datelike::day(&d),
            hour: chrono::Timelike::hour(&d),
            minute: chrono::Timelike::minute(&d),
            second: chrono::Timelike::second(&d),
            nanosecond: chrono::Timelike::nanosecond(&d),
        }),
        Err(_) => None,
    }
}

/// A stored credential and the hosts it is admitted from.
#[derive(Debug)]
pub struct UserAuth {
    /// Row id; 0 where the database holds none.
    pub id: usize,
    pub app_key: String,
    pub app_secret: String,
    pub host: String,
    /// When the credential expires; `None` where the stored text is no date.
    pub expired_datetime: Option<DateTime>,
}

/// The stored text of a credential that never expires.
pub open spec fn never_expires() -> Seq<char> {
    "9999-12-31 01:01:01"@
}

/// The format of stored dates.
pub open spec fn datetime_format() -> Seq<char> {
    "%Y-%m-%d %H:%M:%S"@
}

/// The credential of one database row. An empty expiry text means that the
/// credential never expires; the expiry is read as `%Y-%m-%d %H:%M:%S`.
pub fn user_auth_from_row(id: i64, app_key: String, app_secret: String, host: String, expired: String) -> (r:
    UserAuth)
    ensures
        r.id == id as usize,
        r.app_key == app_key,
        r.app_secret == app_secret,
        r.host == host,
        r.expired_datetime == naive_datetime_parse(
            if expired@.len() == 0 {
                never_expires()
            } else {
                expired@
            },
            datetime_format(),
        ),
{
    let text: &str = if expired.as_str().is_empty() {
        "9999-12-31 01:01:01"
    } else {
        expired.as_str()
    };
    let expired_datetime = parse_naive_datetime(text, "%Y-%m-%d %H:%M:%S");
    UserAuth { id: id as usize, app_key, app_secret, host, expired_datetime }
}

} // verus!
