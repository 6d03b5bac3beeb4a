use imvote::config::{HostBasedAuth, HostIdents, Ident};
use imvote::net::IpAddress;
use imvote::servlet::imguard::{query_app_key, GuardRequest, IMGuard, HEADER_APP_KEY, HEADER_APP_SECRET};

fn table() -> HostBasedAuth {
    HostBasedAuth {
        map: vec![HostIdents {
            host: "".to_string(),
            idents: vec![Ident { user: "u".to_string(), app_key: "k".to_string(), app_secret: "s".to_string() }],
        }],
    }
}

fn request(key: Option<&str>, secret: Option<&str>) -> GuardRequest {
    GuardRequest {
        client_ip: "1.2.3.4".to_string(),
        query: None,
        header_app_key: key.map(|s| s.to_string()),
        header_app_secret: secret.map(|s| s.to_string()),
    }
}

const IP: Option<IpAddress> = Some(IpAddress::V4(0x01020304));

#[test]
fn header_names() {
    assert_eq!(HEADER_APP_KEY, "APP_KEY");
    assert_eq!(HEADER_APP_SECRET, "APP_SECRET");
}

#[test]
fn both_headers_with_valid_credential_pass() {
    assert!(IMGuard.check(&request(Some("K"), Some("S")), IP, &table()));
}

#[test]
fn missing_or_empty_headers_fail() {
    assert!(!IMGuard.check(&request(None, Some("s")), IP, &table()));
    assert!(!IMGuard.check(&request(Some("k"), None), IP, &table()));
    assert!(!IMGuard.check(&request(Some(""), Some("s")), IP, &table()));
    assert!(!IMGuard.check(&request(Some("k"), Some("")), IP, &table()));
}

#[test]
fn wrong_credential_or_address_fails() {
    assert!(!IMGuard.check(&request(Some("k"), Some("x")), IP, &table()));
    assert!(!IMGuard.check(&request(Some("k"), Some("s")), None, &table()));
}

#[test]
fn query_without_key_falls_back_to_headers() {
    let mut r = request(Some("k"), Some("s"));
    r.query = Some(vec![("other".to_string(), "1".to_string()), ("app_key".to_string(), "".to_string())]);
    assert!(IMGuard.check(&r, IP, &table()));
}

#[test]
fn query_key_is_the_last_matching_parameter() {
    let params = vec![
        ("APP_KEY".to_string(), "first".to_string()),
        ("x".to_string(), "y".to_string()),
        ("app_key".to_string(), "second".to_string()),
    ];
    assert_eq!(query_app_key(&params), Some("second".to_string()));
    assert_eq!(query_app_key(&vec![("app_secret".to_string(), "z".to_string())]), None);
}
