use imvote::auth::imauth::{IMAuth, User};
use imvote::config::{HostBasedAuth, HostIdents, Ident};
use imvote::net::{contains, network_admits, network_of, IpAddress, IpNet};

fn ident(key: &str, secret: &str) -> Ident {
    Ident { user: "u".to_string(), app_key: key.to_string(), app_secret: secret.to_string() }
}

fn hba(host: &str) -> HostBasedAuth {
    HostBasedAuth {
        map: vec![HostIdents { host: host.to_string(), idents: vec![ident("k", "s")] }],
    }
}

fn user(ip: &str) -> User {
    User { app_key: "K".to_string(), app_secret: "S".to_string(), ip: ip.to_string() }
}

fn v4(a: u8, b: u8, c: u8, d: u8) -> IpAddress {
    IpAddress::V4(u32::from_be_bytes([a, b, c, d]))
}

#[test]
fn empty_host_admits_any_address() {
    let auth = IMAuth::new();
    assert!(auth.authenticate(&user("8.8.8.8"), Some(v4(8, 8, 8, 8)), &hba("")));
    assert!(auth.authenticate(&user("::2"), Some(IpAddress::V6(2)), &hba("")));
}

#[test]
fn unreadable_address_is_refused() {
    let auth = IMAuth::new();
    assert!(!auth.authenticate(&user("not-an-ip"), None, &hba("")));
}

#[test]
fn unknown_credential_is_refused() {
    let auth = IMAuth::new();
    let u = User { app_key: "k".to_string(), app_secret: "wrong".to_string(), ip: "1.2.3.4".to_string() };
    assert!(!auth.authenticate(&u, Some(v4(1, 2, 3, 4)), &hba("")));
}

#[test]
fn network_host_admits_addresses_inside_only() {
    let auth = IMAuth::new();
    let t = hba("10.1.0.0/16");
    assert!(auth.authenticate(&user("10.1.200.3"), Some(v4(10, 1, 200, 3)), &t));
    assert!(!auth.authenticate(&user("10.2.0.1"), Some(v4(10, 2, 0, 1)), &t));
    assert!(!auth.authenticate(&user("::1"), Some(IpAddress::V6(1)), &t));
}

#[test]
fn single_address_host() {
    let auth = IMAuth::new();
    let t = hba("192.168.1.7");
    assert!(auth.authenticate(&user("192.168.1.7"), Some(v4(192, 168, 1, 7)), &t));
    assert!(!auth.authenticate(&user("192.168.1.8"), Some(v4(192, 168, 1, 8)), &t));
}

#[test]
fn unspecified_network_admits_its_family() {
    let auth = IMAuth::new();
    let t = hba("0.0.0.0/0");
    assert!(auth.authenticate(&user("5.6.7.8"), Some(v4(5, 6, 7, 8)), &t));
    assert!(!auth.authenticate(&user("::5"), Some(IpAddress::V6(5)), &t));
    let t6 = hba("::/0");
    assert!(auth.authenticate(&user("::5"), Some(IpAddress::V6(5)), &t6));
}

#[test]
fn loopback_network_admits_its_family() {
    let auth = IMAuth::new();
    let t = hba("127.0.0.1");
    assert!(auth.authenticate(&user("127.0.0.1"), Some(v4(127, 0, 0, 1)), &t));
    // a loopback network admits every address of its family
    assert!(auth.authenticate(&user("9.9.9.9"), Some(v4(9, 9, 9, 9)), &t));
    let t6 = hba("::1");
    assert!(auth.authenticate(&user("::9"), Some(IpAddress::V6(9)), &t6));
}

#[test]
fn ipv6_network_host() {
    let auth = IMAuth::new();
    let t = hba("2001:db8::/32");
    let inside = IpAddress::V6(0x2001_0db8_0000_0000_0000_0000_0000_0042);
    let outside = IpAddress::V6(0x2001_0db9_0000_0000_0000_0000_0000_0042);
    assert!(auth.authenticate(&user("2001:db8::42"), Some(inside), &t));
    assert!(!auth.authenticate(&user("2001:db9::42"), Some(outside), &t));
}

#[test]
fn unreadable_host_admits_nobody() {
    let auth = IMAuth::new();
    assert!(!auth.authenticate(&user("1.2.3.4"), Some(v4(1, 2, 3, 4)), &hba("not a network")));
    assert!(!auth.authenticate(&user("1.2.3.4"), Some(v4(1, 2, 3, 4)), &hba("1.2.3.4/40")));
}

#[test]
fn any_admitting_host_suffices() {
    let auth = IMAuth::new();
    let t = HostBasedAuth {
        map: vec![
            HostIdents { host: "10.0.0.0/8".to_string(), idents: vec![ident("k", "s")] },
            HostIdents { host: "172.16.0.0/12".to_string(), idents: vec![ident("k", "s")] },
        ],
    };
    assert!(auth.authenticate(&user("172.20.1.1"), Some(v4(172, 20, 1, 1)), &t));
    assert!(!auth.authenticate(&user("8.8.8.8"), Some(v4(8, 8, 8, 8)), &t));
}

#[test]
fn network_arithmetic() {
    let net = IpNet::V4 { addr: u32::from_be_bytes([10, 1, 9, 32]), prefix: 16 };
    assert!(network_of(&net) == v4(10, 1, 0, 0));
    assert!(contains(&net, &v4(10, 1, 255, 255)));
    assert!(!contains(&net, &v4(10, 0, 255, 255)));
    let all = IpNet::V4 { addr: 0, prefix: 0 };
    assert!(contains(&all, &v4(1, 2, 3, 4)));
    assert!(!contains(&all, &IpAddress::V6(1)));
    let net6 = IpNet::V6 { addr: 0x2001_0db8 << 96, prefix: 96 };
    assert!(network_of(&net6) == IpAddress::V6(0x2001_0db8 << 96));
    assert!(contains(&net6, &IpAddress::V6((0x2001_0db8 << 96) | 0xffff_ffff)));
    assert!(!network_admits(&net6, &IpAddress::V6(1)));
    let lo = IpNet::V4 { addr: u32::from_be_bytes([127, 0, 0, 1]), prefix: 8 };
    assert!(network_admits(&lo, &v4(1, 1, 1, 1)));
    assert!(!network_admits(&lo, &IpAddress::V6(1)));
}
