use adguard_home_toggle::api::{AdGuardClient, ProtectionRequest, Status};
use adguard_home_toggle::config::{config_path_in, join_path_bytes, Config};

fn config(url: &str) -> Config {
    Config {
        server_url: url.to_string(),
        username: "admin".to_string(),
        password: "secret".to_string(),
    }
}

#[test]
fn trailing_slashes_are_dropped() {
    let c = AdGuardClient::new(&config("http://192.168.1.1:3000//"));
    assert_eq!(c.base_url(), "http://192.168.1.1:3000");
    assert_eq!(c.username(), "admin");
    assert_eq!(c.password(), "secret");
    let d = AdGuardClient::new(&config("http://192.168.1.1:3000"));
    assert_eq!(d.base_url(), "http://192.168.1.1:3000");
    let e = AdGuardClient::new(&config("///"));
    assert_eq!(e.base_url(), "");
}

#[test]
fn request_addresses() {
    let c = AdGuardClient::new(&config("http://192.168.1.1:3000/"));
    assert_eq!(c.status_url(), "http://192.168.1.1:3000/control/status");
    assert_eq!(c.protection_url(), "http://192.168.1.1:3000/control/protection");
}

#[test]
fn request_bodies() {
    assert_eq!(
        AdGuardClient::protection_request(true),
        ProtectionRequest { enabled: true, duration: None }
    );
    assert_eq!(
        AdGuardClient::protection_request(false),
        ProtectionRequest { enabled: false, duration: None }
    );
    assert_eq!(
        AdGuardClient::snooze_request(600_000),
        ProtectionRequest { enabled: false, duration: Some(600_000) }
    );
}

#[test]
fn response_status_is_judged() {
    assert_eq!(AdGuardClient::check_response(200, "200 OK"), Ok(()));
    assert_eq!(AdGuardClient::check_response(204, "204 No Content"), Ok(()));
    assert_eq!(AdGuardClient::check_response(299, "299 <unknown status code>"), Ok(()));
    assert_eq!(
        AdGuardClient::check_response(199, "199 <unknown status code>"),
        Err("API returned 199 <unknown status code>".to_string())
    );
    assert_eq!(
        AdGuardClient::check_response(300, "300 Multiple Choices"),
        Err("API returned 300 Multiple Choices".to_string())
    );
    assert_eq!(
        AdGuardClient::check_response(401, "401 Unauthorized"),
        Err("API returned 401 Unauthorized".to_string())
    );
}

#[test]
fn error_texts() {
    assert_eq!(AdGuardClient::request_failed("timed out"), "Request failed: timed out");
    assert_eq!(
        AdGuardClient::parse_failed("missing field"),
        "Failed to parse response: missing field"
    );
}

#[test]
fn status_is_plain_data() {
    let s = Status { protection_enabled: false, protection_disabled_duration: 5 };
    let t = s;
    assert_eq!(s, t);
}

#[test]
fn config_file_location() {
    assert_eq!(
        config_path_in(Some(b"/home/u/.config".to_vec())),
        b"/home/u/.config/adguard-home-toggle/config.toml".to_vec()
    );
    assert_eq!(
        config_path_in(Some(b"/home/u/.config/".to_vec())),
        b"/home/u/.config/adguard-home-toggle/config.toml".to_vec()
    );
    assert_eq!(config_path_in(None), b"~/.config/adguard-home-toggle/config.toml".to_vec());
    assert_eq!(config_path_in(Some(Vec::new())), b"adguard-home-toggle/config.toml".to_vec());
    // A directory name that is not UTF-8 is kept byte for byte.
    assert_eq!(
        config_path_in(Some(vec![b'/', 0xff, b'x'])),
        b"/\xffx/adguard-home-toggle/config.toml".to_vec()
    );
    assert!(Config::path().ends_with(b"/adguard-home-toggle/config.toml"));
}

#[test]
fn path_joining() {
    assert_eq!(join_path_bytes(b"a", b"b"), b"a/b".to_vec());
    assert_eq!(join_path_bytes(b"a/", b"b"), b"a/b".to_vec());
    assert_eq!(join_path_bytes(b"", b"b"), b"b".to_vec());
    assert_eq!(join_path_bytes(b"/", b"b/c"), b"/b/c".to_vec());
}
