//! The server's configuration, the defaults that fill what it leaves open,
//! and the host-based table of application credentials.
use vstd::prelude::*;

use crate::ascii::{eq_ignore_ascii_case, eq_ignore_ascii_case_spec, lemma_eq_ignore_ascii_case_equivalence};

verus! {

/// Port on which a server listens when its configuration names none.
pub const DEFAULT_PORT: u16 = 6969;

/// The whole configuration file.
pub struct Config {
    /// The local server.
    pub server: Option<ConfigServer>,
    /// The voter client that runs beside the server.
    pub client: Option<ConfigClient>,
    /// Heartbeat timing.
    pub heartbeat: Option<ConfigHeartbeat>,
    /// The servers of the cluster.
    pub node: Option<Vec<ConfigNode>>,
    /// Watched directories.
    pub watcher: Option<ConfigWatcher>,
}

/// Settings of the local server.
pub struct ConfigServer {
    /// Server id, 1 when left out.
    pub server_id: Option<usize>,
    /// Listening port, `DEFAULT_PORT` when left out.
    pub port: Option<u16>,
    /// Worker threads, 2 when left out.
    pub worker: Option<usize>,
    /// Election weight, 1 when left out.
    pub weight: Option<usize>,
    /// Directory of the data files.
    pub data_root: Option<String>,
    /// Seconds to wait for a majority of live servers, 60 when left out.
    pub discovery_wait_timeout: Option<usize>,
}

/// Settings of the voter client.
pub struct ConfigClient {
    /// Whether the server runs without its own voters, false when left out.
    pub singleton: Option<bool>,
    /// Credential key, empty when left out.
    pub app_key: Option<String>,
    /// Credential secret, empty when left out.
    pub app_secret: Option<String>,
    /// Seconds to sleep before reconnecting, 60 when left out.
    pub connect_retry: Option<usize>,
}

/// Watched directories.
pub struct ConfigWatcher {
    /// Base directories.
    pub root: Vec<ConfigWatchItem>,
    /// Directories.
    pub dirs: Vec<String>,
    /// Changed files and paths.
    pub vars: Vec<String>,
}

/// One watched directory.
pub struct ConfigWatchItem {
    /// Source.
    pub src: Option<String>,
    /// Destination.
    pub dst: Option<String>,
    /// Extension.
    pub ext: Option<String>,
}

/// Heartbeat timing, in seconds.
pub struct ConfigHeartbeat {
    /// Interval between heartbeats.
    pub interval: Option<usize>,
    /// Time after which a silent peer counts as gone.
    pub timeout: Option<usize>,
}

/// One server of the cluster.
pub struct ConfigNode {
    /// Server id.
    pub id: usize,
    /// Host name or address; 127.0.0.1 when left out.
    pub host: Option<String>,
    /// Port; `DEFAULT_PORT` when left out.
    pub port: Option<u16>,
}

impl Clone for ConfigNode {
    fn clone(&self) -> (r: Self)
        ensures
            r == *self,
    {
        let host = match &self.host {
            Some(h) => Some(h.clone()),
            None => None,
        };
        ConfigNode { id: self.id, host, port: self.port }
    }
}

/// The value of an optional setting, or `default` where it is left out.
pub open spec fn or_default<T>(setting: Option<T>, default: T) -> T {
    match setting {
        Some(v) => v,
        None => default,
    }
}

/// A numeric setting of the server section, or `default`.
pub open spec fn server_usize(
    config: Config,
    pick: spec_fn(ConfigServer) -> Option<usize>,
    default: usize,
) -> usize {
    match config.server {
        Some(s) => or_default(pick(s), default),
        None => default,
    }
}

/// A numeric setting of the client section, or `default`.
pub open spec fn client_usize(
    config: Config,
    pick: spec_fn(ConfigClient) -> Option<usize>,
    default: usize,
) -> usize {
    match config.client {
        Some(c) => or_default(pick(c), default),
        None => default,
    }
}

/// A text setting of the client section, or the empty text.
pub open spec fn client_text(config: Config, pick: spec_fn(ConfigClient) -> Option<String>) -> Seq<
    char,
> {
    match config.client {
        Some(c) => match pick(c) {
            Some(s) => s@,
            None => Seq::empty(),
        },
        None => Seq::empty(),
    }
}

/// The servers of the cluster as configured, none where the section is left out.
pub open spec fn configured_nodes(config: Config) -> Seq<ConfigNode> {
    match config.node {
        Some(v) => v@,
        None => Seq::empty(),
    }
}

/// The local server's id; 1 when it is not configured.
pub fn get_server_id(config: &Config) -> (r: usize)
    ensures
        r == server_usize(*config, |s: ConfigServer| s.server_id, 1),
{
    match &config.server {
        Some(s) => match s.server_id {
            Some(v) => v,
            None => 1,
        },
        None => 1,
    }
}

/// The local server's port; `DEFAULT_PORT` when it is not configured.
pub fn get_server_port(config: &Config) -> (r: u16)
    ensures
        r == match config.server {
            Some(s) => or_default(s.port, DEFAULT_PORT),
            None => DEFAULT_PORT,
        },
{
    match &config.server {
        Some(s) => match s.port {
            Some(v) => v,
            None => DEFAULT_PORT,
        },
        None => DEFAULT_PORT,
    }
}

/// Number of worker threads; 2 when it is not configured.
pub fn get_server_worker(config: &Config) -> (r: usize)
    ensures
        r == server_usize(*config, |s: ConfigServer| s.worker, 2),
{
    match &config.server {
        Some(s) => match s.worker {
            Some(v) => v,
            None => 2,
        },
        None => 2,
    }
}

/// Seconds to wait for a majority of live servers; 60 when it is not configured.
pub fn get_server_discovery_wait_timeout(config: &Config) -> (r: usize)
    ensures
        r == server_usize(*config, |s: ConfigServer| s.discovery_wait_timeout, 60),
{
    match &config.server {
        Some(s) => match s.discovery_wait_timeout {
            Some(v) => v,
            None => 60,
        },
        None => 60,
    }
}

/// The local server's election weight; 1 when it is not configured.
pub fn get_server_weight(config: &Config) -> (r: usize)
    ensures
        r == server_usize(*config, |s: ConfigServer| s.weight, 1),
{
    match &config.server {
        Some(s) => match s.weight {
            Some(v) => v,
            None => 1,
        },
        None => 1,
    }
}

/// The configured data directory, or `default_root` when none is configured.
pub fn get_server_data_root_setting(config: &Config, default_root: String) -> (r: String)
    ensures
        r@ == match config.server {
            Some(s) => match s.data_root {
                Some(d) => d@,
                None => default_root@,
            },
            None => default_root@,
        },
{
    match &config.server {
        Some(s) => match &s.data_root {
            Some(d) => d.clone(),
            None => default_root,
        },
        None => default_root,
    }
}

/// The servers of the cluster. A cluster has at least three of them.
pub fn get_nodes(config: &Config) -> (r: Vec<ConfigNode>)
    requires
        configured_nodes(*config).len() >= 3,
    ensures
        r@ == configured_nodes(*config),
{
    match &config.node {
        Some(v) => v.clone(),
        None => Vec::new(),
    }
}

/// Whether the server runs without voters of its own; false when it is not configured.
pub fn get_client_singleton(config: &Config) -> (r: bool)
    ensures
        r == match config.client {
            Some(c) => or_default(c.singleton, false),
            None => false,
        },
{
    match &config.client {
        Some(c) => match c.singleton {
            Some(v) => v,
            None => false,
        },
        None => false,
    }
}

/// The voters' credential key; empty when it is not configured.
pub fn get_client_app_key(config: &Config) -> (r: String)
    ensures
        r@ == client_text(*config, |c: ConfigClient| c.app_key),
{
    match &config.client {
        Some(c) => match &c.app_key {
            Some(k) => k.clone(),
            None => String::new(),
        },
        None => String::new(),
    }
}

/// The voters' credential secret; empty when it is not configured.
pub fn get_client_app_secret(config: &Config) -> (r: String)
    ensures
        r@ == client_text(*config, |c: ConfigClient| c.app_secret),
{
    match &config.client {
        Some(c) => match &c.app_secret {
            Some(k) => k.clone(),
            None => String::new(),
        },
        None => String::new(),
    }
}

/// Seconds a voter sleeps before reconnecting; 60 when it is not configured.
pub fn get_client_connect_retry(config: &Config) -> (r: usize)
    ensures
        r == client_usize(*config, |c: ConfigClient| c.connect_retry, 60),
{
    match &config.client {
        Some(c) => match c.connect_retry {
            Some(v) => v,
            None => 60,
        },
        None => 60,
    }
}


/// One credential of the host-based table.
pub struct Ident {
    /// Name of the user.
    pub user: String,
    /// Credential key.
    pub app_key: String,
    /// Credential secret.
    pub app_secret: String,
}

/// What an `Ident` holds, as text.
pub struct IdentView {
    pub user: Seq<char>,
    pub app_key: Seq<char>,
    pub app_secret: Seq<char>,
}

impl View for Ident {
    type V = IdentView;

    open spec fn view(&self) -> IdentView {
        IdentView { user: self.user@, app_key: self.app_key@, app_secret: self.app_secret@ }
    }
}

impl Clone for Ident {
    fn clone(&self) -> (r: Self)
        ensures
            r == *self,
    {
        Ident {
            user: self.user.clone(),
            app_key: self.app_key.clone(),
            app_secret: self.app_secret.clone(),
        }
    }
}

/// The credentials admitted from one host (an address, a network, or empty for any).
pub struct HostIdents {
    pub host: String,
    pub idents: Vec<Ident>,
}

impl View for HostIdents {
    type V = (Seq<char>, Seq<IdentView>);

    open spec fn view(&self) -> (Seq<char>, Seq<IdentView>) {
        (self.host@, self.idents@.map_values(|i: Ident| i@))
    }
}

/// Host based authorization: for each host, the credentials it admits.
/// The table is read from a file in which each host occurs once.
pub struct HostBasedAuth {
    pub map: Vec<HostIdents>,
}

impl View for HostBasedAuth {
    type V = Seq<(Seq<char>, Seq<IdentView>)>;

    open spec fn view(&self) -> Seq<(Seq<char>, Seq<IdentView>)> {
        self.map@.map_values(|e: HostIdents| e@)
    }
}

/// No host occurs twice among `entries`.
pub open spec fn hosts_distinct(entries: Seq<(Seq<char>, Seq<IdentView>)>) -> bool {
    forall|i: int, j: int|
        0 <= i < entries.len() && 0 <= j < entries.len() && i != j ==> (#[trigger] entries[i]).0
            != (#[trigger] entries[j]).0
}

/// No host occurs twice among the pairs.
pub open spec fn pair_hosts_distinct(pairs: Seq<(Seq<char>, IdentView)>) -> bool {
    forall|i: int, j: int|
        0 <= i < pairs.len() && 0 <= j < pairs.len() && i != j ==> (#[trigger] pairs[i]).0
            != (#[trigger] pairs[j]).0
}

impl HostBasedAuth {
    /// Each host occurs once, as in the file the table is read from.
    pub open spec fn wf(self) -> bool {
        hosts_distinct(self@)
    }
}

/// `ident` carries the given key and secret, each up to ASCII case.
pub open spec fn ident_matches(ident: IdentView, app_key: Seq<char>, app_secret: Seq<char>) -> bool {
    eq_ignore_ascii_case_spec(ident.app_key, app_key) && eq_ignore_ascii_case_spec(
        ident.app_secret,
        app_secret,
    )
}

/// The last credential of `idents` that matches, if any.
pub open spec fn last_match(idents: Seq<IdentView>, app_key: Seq<char>, app_secret: Seq<char>) -> Option<
    IdentView,
>
    decreases idents.len(),
{
    if idents.len() == 0 {
        None
    } else if ident_matches(idents.last(), app_key, app_secret) {
        Some(idents.last())
    } else {
        last_match(idents.drop_last(), app_key, app_secret)
    }
}

/// Each host of `entries`, in order, that admits the credential, paired with the
/// last of its credentials that matches.
pub open spec fn matched_hosts(
    entries: Seq<(Seq<char>, Seq<IdentView>)>,
    app_key: Seq<char>,
    app_secret: Seq<char>,
) -> Seq<(Seq<char>, IdentView)>
    decreases entries.len(),
{
    if entries.len() == 0 {
        Seq::empty()
    } else {
        let prev = matched_hosts(entries.drop_last(), app_key, app_secret);
        match last_match(entries.last().1, app_key, app_secret) {
            Some(i) => prev.push((entries.last().0, i)),
            None => prev,
        }
    }
}

/// The last match is a matching credential of the list, and there is one exactly
/// when some credential of the list matches.
pub proof fn lemma_last_match(idents: Seq<IdentView>, app_key: Seq<char>, app_secret: Seq<char>)
    ensures
        last_match(idents, app_key, app_secret) matches Some(i) ==> ident_matches(i, app_key, app_secret)
            && idents.contains(i),
        last_match(idents, app_key, app_secret) is None <==> forall|j: int|
            0 <= j < idents.len() ==> !ident_matches(#[trigger] idents[j], app_key, app_secret),
    decreases idents.len(),
{
    if idents.len() > 0 {
        lemma_last_match(idents.drop_last(), app_key, app_secret);
        if !ident_matches(idents.last(), app_key, app_secret) {
            if last_match(idents.drop_last(), app_key, app_secret) is Some {
                let m = last_match(idents.drop_last(), app_key, app_secret)->0;
                let k = choose|k: int| 0 <= k < idents.drop_last().len() && idents.drop_last()[k] == m;
                assert(idents[k] == m);
            }
            if forall|j: int| 0 <= j < idents.drop_last().len() ==> !ident_matches(#[trigger] idents.drop_last()[j], app_key, app_secret) {
                assert forall|j: int| 0 <= j < idents.len() implies !ident_matches(#[trigger] idents[j], app_key, app_secret) by {
                    if j < idents.len() - 1 {
                        assert(idents[j] == idents.drop_last()[j]);
                    }
                }
            }
            if forall|j: int| 0 <= j < idents.len() ==> !ident_matches(#[trigger] idents[j], app_key, app_secret) {
                assert forall|j: int| 0 <= j < idents.drop_last().len() implies !ident_matches(#[trigger] idents.drop_last()[j], app_key, app_secret) by {
                    assert(idents[j] == idents.drop_last()[j]);
                }
            }
        } else {
            assert(idents[idents.len() - 1] == idents.last());
        }
    }
}

/// The hosts that admit a credential, each with a matching credential of its own:
/// every pair of the result is a host of the table with one of its matching
/// credentials, and every host of the table with a matching credential is in the result.
pub proof fn lemma_matched_hosts(
    entries: Seq<(Seq<char>, Seq<IdentView>)>,
    app_key: Seq<char>,
    app_secret: Seq<char>,
)
    ensures
        forall|i: int|
            0 <= i < matched_hosts(entries, app_key, app_secret).len() ==> {
                let p = #[trigger] matched_hosts(entries, app_key, app_secret)[i];
                &&& ident_matches(p.1, app_key, app_secret)
                &&& exists|j: int|
                    0 <= j < entries.len() && (#[trigger] entries[j]).0 == p.0 && entries[j].1.contains(
                        p.1,
                    )
            },
        forall|j: int, k: int|
            0 <= j < entries.len() && 0 <= k < entries[j].1.len() && ident_matches(
                #[trigger] entries[j].1[k],
                app_key,
                app_secret,
            ) ==> exists|i: int|
                0 <= i < matched_hosts(entries, app_key, app_secret).len() && (
                #[trigger] matched_hosts(entries, app_key, app_secret)[i]).0 == entries[j].0,
    decreases entries.len(),
{
    if entries.len() > 0 {
        let init = entries.drop_last();
        let prev = matched_hosts(init, app_key, app_secret);
        let res = matched_hosts(entries, app_key, app_secret);
        lemma_matched_hosts(init, app_key, app_secret);
        lemma_last_match(entries.last().1, app_key, app_secret);
        let last = entries.len() - 1;
        assert(entries[last] == entries.last());
        assert forall|i: int| 0 <= i < res.len() implies {
            let p = #[trigger] res[i];
            &&& ident_matches(p.1, app_key, app_secret)
            &&& exists|j: int|
                0 <= j < entries.len() && (#[trigger] entries[j]).0 == p.0 && entries[j].1.contains(p.1)
        } by {
            if i < prev.len() {
                assert(res[i] == prev[i]);
                let j = choose|j: int|
                    0 <= j < init.len() && (#[trigger] init[j]).0 == prev[i].0 && init[j].1.contains(prev[i].1);
                assert(entries[j] == init[j]);
            } else {
                assert(res[i].0 == entries[last].0);
            }
        }
        assert forall|j: int, k: int|
            0 <= j < entries.len() && 0 <= k < entries[j].1.len() && ident_matches(
                #[trigger] entries[j].1[k],
                app_key,
                app_secret,
            ) implies exists|i: int| 0 <= i < res.len() && (#[trigger] res[i]).0 == entries[j].0 by {
            if j < last {
                assert(entries[j] == init[j]);
                assert(init[j].1[k] == entries[j].1[k]);
                let i = choose|i: int| 0 <= i < prev.len() && (#[trigger] prev[i]).0 == init[j].0;
                assert(res[i] == prev[i]);
            } else {
                assert(last_match(entries.last().1, app_key, app_secret) is Some);
                assert(res[prev.len() as int].0 == entries[j].0);
            }
        }
    }
}

/// Where each host of the table occurs once, each host occurs once among those
/// that admit a credential.
pub proof fn lemma_matched_hosts_distinct(
    entries: Seq<(Seq<char>, Seq<IdentView>)>,
    app_key: Seq<char>,
    app_secret: Seq<char>,
)
    requires
        hosts_distinct(entries),
    ensures
        pair_hosts_distinct(matched_hosts(entries, app_key, app_secret)),
    decreases entries.len(),
{
    if entries.len() > 0 {
        let init = entries.drop_last();
        let prev = matched_hosts(init, app_key, app_secret);
        let res = matched_hosts(entries, app_key, app_secret);
        assert forall|i: int, j: int|
            0 <= i < init.len() && 0 <= j < init.len() && i != j implies (#[trigger] init[i]).0
            != (#[trigger] init[j]).0 by {
            assert(init[i] == entries[i]);
            assert(init[j] == entries[j]);
        }
        lemma_matched_hosts_distinct(init, app_key, app_secret);
        lemma_matched_hosts(init, app_key, app_secret);
        if res != prev {
            let last = entries.len() - 1;
            assert(entries[last] == entries.last());
            assert forall|i: int| 0 <= i < prev.len() implies (#[trigger] prev[i]).0 != entries.last().0 by {
                let j = choose|j: int|
                    0 <= j < init.len() && (#[trigger] init[j]).0 == prev[i].0 && init[j].1.contains(prev[i].1);
                assert(entries[j] == init[j]);
            }
            assert forall|i: int, j: int|
                0 <= i < res.len() && 0 <= j < res.len() && i != j implies (#[trigger] res[i]).0
                != (#[trigger] res[j]).0 by {
                if i < prev.len() && j < prev.len() {
                    assert(res[i] == prev[i]);
                    assert(res[j] == prev[j]);
                } else if i < prev.len() {
                    assert(res[i] == prev[i]);
                } else {
                    assert(res[j] == prev[j]);
                }
            }
        }
    }
}

/// Which hosts admit a credential, and with which of their credentials, depends on
/// the key and the secret only up to ASCII case.
pub proof fn lemma_matched_hosts_ignore_case(
    entries: Seq<(Seq<char>, Seq<IdentView>)>,
    key1: Seq<char>,
    secret1: Seq<char>,
    key2: Seq<char>,
    secret2: Seq<char>,
)
    requires
        eq_ignore_ascii_case_spec(key1, key2),
        eq_ignore_ascii_case_spec(secret1, secret2),
    ensures
        matched_hosts(entries, key1, secret1) == matched_hosts(entries, key2, secret2),
    decreases entries.len(),
{
    assert forall|i: IdentView| ident_matches(i, key1, secret1) == ident_matches(i, key2, secret2) by {
        lemma_eq_ignore_ascii_case_equivalence(i.app_key, key1, key2);
        lemma_eq_ignore_ascii_case_equivalence(i.app_key, key2, key1);
        lemma_eq_ignore_ascii_case_equivalence(key1, key2, key1);
        lemma_eq_ignore_ascii_case_equivalence(i.app_secret, secret1, secret2);
        lemma_eq_ignore_ascii_case_equivalence(i.app_secret, secret2, secret1);
        lemma_eq_ignore_ascii_case_equivalence(secret1, secret2, secret1);
    }
    if entries.len() > 0 {
        lemma_matched_hosts_ignore_case(entries.drop_last(), key1, secret1, key2, secret2);
        lemma_last_match_ignore_case(entries.last().1, key1, secret1, key2, secret2);
    }
}

proof fn lemma_last_match_ignore_case(
    idents: Seq<IdentView>,
    key1: Seq<char>,
    secret1: Seq<char>,
    key2: Seq<char>,
    secret2: Seq<char>,
)
    requires
        forall|i: IdentView| ident_matches(i, key1, secret1) == ident_matches(i, key2, secret2),
    ensures
        last_match(idents, key1, secret1) == last_match(idents, key2, secret2),
    decreases idents.len(),
{
    if idents.len() > 0 {
        lemma_last_match_ignore_case(idents.drop_last(), key1, secret1, key2, secret2);
    }
}

/// The view of a list of (host, credential) pairs.
pub open spec fn host_pairs_view(v: Seq<(String, Ident)>) -> Seq<(Seq<char>, IdentView)> {
    v.map_values(|p: (String, Ident)| (p.0@, p.1@))
}

impl HostBasedAuth {
    /// The hosts that admit the credential `app_key`/`app_secret` (compared up to
    /// ASCII case), each with the last of its credentials that matches.
    pub fn match_ident(&self, app_key: &str, app_secret: &str) -> (r: Vec<(String, Ident)>)
        ensures
            host_pairs_view(r@) == matched_hosts(self@, app_key@, app_secret@),
            self.wf() ==> pair_hosts_distinct(host_pairs_view(r@)),
    {
        let mut ret: Vec<(String, Ident)> = Vec::new();
        let n = self.map.len();
        for k in 0..n
            invariant
                n == self.map@.len(),
                host_pairs_view(ret@) == matched_hosts(self@.take(k as int), app_key@, app_secret@),
        {
            let entry = &self.map[k];
            let m = entry.idents.len();
            let mut found: Option<&Ident> = None;
            for j in 0..m
                invariant
                    m == entry.idents@.len(),
                    entry == self.map@[k as int],
                    match found {
                        Some(i) => last_match(entry@.1.take(j as int), app_key@, app_secret@)
                            == Some(i@),
                        None => last_match(entry@.1.take(j as int), app_key@, app_secret@) is None,
                    },
            {
                let ident = &entry.idents[j];
                assert(entry@.1.take(j + 1).drop_last() =~= entry@.1.take(j as int));
                if eq_ignore_ascii_case(ident.app_key.as_str(), app_key) && eq_ignore_ascii_case(
                    ident.app_secret.as_str(),
                    app_secret,
                ) {
                    found = Some(ident);
                }
            }
            assert(entry@.1.take(m as int) =~= entry@.1);
            assert(self@.take(k + 1).drop_last() =~= self@.take(k as int));
            match found {
                Some(i) => {
                    ret.push((entry.host.clone(), i.clone()));
                    assert(host_pairs_view(ret@) =~= matched_hosts(
                        self@.take(k as int),
                        app_key@,
                        app_secret@,
                    ).push((entry.host@, i@)));
                },
                None => {},
            }
        }
        assert(self@.take(n as int) =~= self@);
        proof {
            if self.wf() {
                lemma_matched_hosts_distinct(self@, app_key@, app_secret@);
            }
        }
        ret
    }
}

} // verus!
