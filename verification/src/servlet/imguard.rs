//! The guard that admits a websocket request only with a valid credential.
use vstd::prelude::*;

use crate::ascii::{eq_ignore_ascii_case, eq_ignore_ascii_case_spec};
use crate::auth::imauth::{authenticated, IMAuth, User};
use crate::config::HostBasedAuth;
use crate::net::IpAddress;

verus! {

/// Name of the credential key, as a query parameter or a header.
pub const HEADER_APP_KEY: &'static str = "APP_KEY";

/// Name of the credential secret, as a header.
pub const HEADER_APP_SECRET: &'static str = "APP_SECRET";

/// The guard.
pub struct IMGuard;

/// What the guard reads of a request.
pub struct GuardRequest {
    /// The peer's address, as text.
    pub client_ip: String,
    /// The query parameters, in the order in which they are examined, each name
    /// once; `None` where the request has no query or it does not parse.
    pub query: Option<Vec<(String, String)>>,
    /// The `APP_KEY` header.
    pub header_app_key: Option<String>,
    /// The `APP_SECRET` header.
    pub header_app_secret: Option<String>,
}

/// The value of the last parameter whose name is `APP_KEY` up to ASCII case.
pub open spec fn query_key(params: Seq<(String, String)>) -> Option<Seq<char>>
    decreases params.len(),
{
    if params.len() == 0 {
        None
    } else if eq_ignore_ascii_case_spec(params.last().0@, "APP_KEY"@) {
        Some(params.last().1@)
    } else {
        query_key(params.drop_last())
    }
}

/// The query names a non-empty credential key. Such a request names no secret in
/// the query, and the guard cannot go on with it.
pub open spec fn query_names_key(req: &GuardRequest) -> bool {
    req.query matches Some(params) && query_key(params@) matches Some(k) && k.len() > 0
}

/// The value of the last query parameter named `APP_KEY`, up to ASCII case.
pub fn query_app_key(params: &Vec<(String, String)>) -> (r: Option<String>)
    ensures
        match r {
            Some(s) => query_key(params@) == Some(s@),
            None => query_key(params@) is None,
        },
{
    let mut found: Option<&String> = None;
    let n = params.len();
    for i in 0..n
        invariant
            n == params@.len(),
            match found {
                Some(s) => query_key(params@.take(i as int)) == Some(s@),
                None => query_key(params@.take(i as int)) is None,
            },
    {
        assert(params@.take(i + 1).drop_last() =~= params@.take(i as int));
        proof {
            reveal_strlit("APP_KEY");
        }
        if eq_ignore_ascii_case(params[i].0.as_str(), HEADER_APP_KEY) {
            found = Some(&params[i].1);
        }
    }
    assert(params@.take(n as int) =~= params@);
    match found {
        Some(s) => Some(s.clone()),
        None => None,
    }
}

impl IMGuard {
    /// Admits a request whose `APP_KEY` and `APP_SECRET` headers are both present
    /// and non-empty and whose credential authenticates the peer; `client_ip` is the
    /// peer's address read as an IP address, `hba` the table of credentials.
    pub fn check(&self, req: &GuardRequest, client_ip: Option<IpAddress>, hba: &HostBasedAuth) -> (r:
        bool)
        requires
            !query_names_key(req),
        ensures
            r == match (req.header_app_key, req.header_app_secret) {
                (Some(k), Some(s)) => k@.len() > 0 && s@.len() > 0 && authenticated(
                    hba@,
                    k@,
                    s@,
                    client_ip,
                ),
                _ => false,
            },
    {
        if let Some(params) = &req.query {
            let param_app_key = query_app_key(params);
            let mut valid = false;
            if let Some(app_key) = &param_app_key {
                valid = valid || !app_key.as_str().is_empty();
            }
            if valid {
                return false;
            }
        }
        let (header_app_key, header_app_secret) = match (&req.header_app_key, &req.header_app_secret) {
            (Some(k), Some(s)) => (k, s),
            _ => {
                return false;
            },
        };
        let mut valid = false;
        valid = valid || !header_app_key.as_str().is_empty();
        valid = valid && !header_app_secret.as_str().is_empty();
        if valid {
            let user = User {
                app_key: header_app_key.clone(),
                app_secret: header_app_secret.clone(),
                ip: req.client_ip.clone(),
            };
            return IMAuth::new().authenticate(&user, client_ip, hba);
        }
        false
    }
}

} // verus!
