//! The check of a peer's credential and address against the host-based table.
use vstd::prelude::*;

use crate::config::{host_pairs_view, matched_hosts, HostBasedAuth};
use crate::net::{ip_network_parse, net_admits, network_admits, parse_ip_network, IpAddress};

verus! {

/// A peer that asks to be admitted.
pub struct User {
    pub app_key: String,
    pub app_secret: String,
    /// The peer's address, as text.
    pub ip: String,
}

/// The authenticator.
pub struct IMAuth;

/// A configured host admits the client address `ip`: the empty host admits every
/// address; otherwise the host must read as a network that admits `ip`.
pub open spec fn host_admits(host: Seq<char>, ip: IpAddress) -> bool {
    host.len() == 0 || match ip_network_parse(host) {
        Some(net) => net_admits(net, ip),
        None => false,
    }
}

/// The peer is admitted: its address reads as an IP address, and some host whose
/// credential matches the peer's key and secret admits that address.
pub open spec fn authenticated(
    hba: Seq<(Seq<char>, Seq<crate::config::IdentView>)>,
    user_key: Seq<char>,
    user_secret: Seq<char>,
    client_ip: Option<IpAddress>,
) -> bool {
    match client_ip {
        None => false,
        Some(ip) => {
            let hosts = matched_hosts(hba, user_key, user_secret);
            exists|i: int| 0 <= i < hosts.len() && host_admits(#[trigger] hosts[i].0, ip)
        },
    }
}

/// A peer is refused when its address does not read as an IP address or when no
/// host admits its credential; a host configured as empty admits the credential
/// from every address.
pub proof fn lemma_authenticated(
    hba: Seq<(Seq<char>, Seq<crate::config::IdentView>)>,
    user_key: Seq<char>,
    user_secret: Seq<char>,
    client_ip: Option<IpAddress>,
)
    ensures
        client_ip is None ==> !authenticated(hba, user_key, user_secret, client_ip),
        matched_hosts(hba, user_key, user_secret).len() == 0 ==> !authenticated(
            hba,
            user_key,
            user_secret,
            client_ip,
        ),
        client_ip is Some && (exists|i: int|
            0 <= i < matched_hosts(hba, user_key, user_secret).len() && (
            #[trigger] matched_hosts(hba, user_key, user_secret)[i]).0.len() == 0) ==> authenticated(
            hba,
            user_key,
            user_secret,
            client_ip,
        ),
{
}

impl IMAuth {
    pub fn new() -> (r: Self) {
        IMAuth {  }
    }

    /// Decides whether `user` is admitted. `client_ip` is `user.ip` read as an IPv4
    /// or else an IPv6 address, `None` where it is neither; `hba` is the table of
    /// admitted credentials.
    pub fn authenticate(&self, user: &User, client_ip: Option<IpAddress>, hba: &HostBasedAuth) -> (r:
        bool)
        ensures
            r == authenticated(hba@, user.app_key@, user.app_secret@, client_ip),
    {
        let ip = match client_ip {
            Some(ip) => ip,
            None => {
                return false;
            },
        };
        let idents = hba.match_ident(user.app_key.as_str(), user.app_secret.as_str());
        let ghost hosts = matched_hosts(hba@, user.app_key@, user.app_secret@);
        let mut valid_user = false;
        let mut valid_addr = false;
        let n = idents.len();
        let mut k: usize = 0;
        while k < n
            invariant_except_break
                valid_user == (k > 0),
                !valid_addr,
            invariant
                n == idents@.len(),
                host_pairs_view(idents@) == hosts,
                k <= n,
                forall|i: int| 0 <= i < k ==> !host_admits(#[trigger] hosts[i].0, ip),
            ensures
                valid_addr ==> valid_user && k < n && host_admits(hosts[k as int].0, ip),
                !valid_addr ==> k == n && valid_user == (n > 0),
            decreases n - k,
        {
            let host = &idents[k].0;
            assert(hosts[k as int].0 == host@);
            valid_user = true;
            if host.as_str().is_empty() {
                valid_addr = true;
                break;
            }
            let admitted = match parse_ip_network(host.as_str()) {
                Some(net) => network_admits(&net, &ip),
                None => false,
            };
            if admitted {
                valid_addr = true;
                break;
            }
            k = k + 1;
        }
        if !valid_user {
            return false;
        }
        if !valid_addr {
            return false;
        }
        assert(host_admits(hosts[k as int].0, ip));
        true
    }
}

} // verus!
