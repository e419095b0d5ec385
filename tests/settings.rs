use radius_oxide::settings::{
    AuthKinds, AuthenticationEntry, OxideSettings, ServerAddr, ServerRecord, SettingsError, SettingsRecord,
    UserRecord,
};
use sha2::Digest;

fn sha512_hex(text: &str) -> String {
    hex::encode(sha2::Sha512::digest(text.as_bytes()))
}

fn record(username: &str, hash: &str, mac: &str, vlan_enabled: bool, vlan_id: u16) -> UserRecord {
    UserRecord {
        username: username.to_string(),
        hash: hash.to_string(),
        mac_address: mac.to_string(),
        vlan_enabled,
        vlan_id,
    }
}

fn raw(servers: Vec<ServerRecord>, users: Vec<UserRecord>) -> SettingsRecord {
    SettingsRecord {
        listen_address: String::new(),
        listen_address_parses: false,
        listen_port: 0,
        secret: "k".to_string(),
        servers,
        users,
    }
}

#[test]
fn listen_defaults_apply() {
    let s = OxideSettings::new(raw(vec![], vec![])).unwrap();
    assert_eq!(s.get_listen_address(), "0.0.0.0");
    assert_eq!(s.get_listen_port(), 1812);
    assert_eq!(s.get_secret(), "k");
    let mut r = raw(vec![], vec![]);
    r.listen_address = "127.0.0.1".to_string();
    r.listen_address_parses = true;
    r.listen_port = 1645;
    let s = OxideSettings::new(r).unwrap();
    assert_eq!(s.get_listen_address(), "127.0.0.1");
    assert_eq!(s.get_listen_port(), 1645);
}

#[test]
fn unparseable_listen_address_falls_back() {
    let mut r = raw(vec![], vec![]);
    r.listen_address = "not-an-ip".to_string();
    r.listen_address_parses = false;
    let s = OxideSettings::new(r).unwrap();
    assert_eq!(s.get_listen_address(), "0.0.0.0");
}

#[test]
fn bad_server_ip_is_fatal() {
    let servers = vec![ServerRecord { ip: None, default_vlan_enabled: false, vlan_id: 0 }];
    let users = vec![record("", "", "", false, 0)];
    assert_eq!(OxideSettings::new(raw(servers, users)).err(), Some(SettingsError::ServerAddress));
}

#[test]
fn server_default_vlan_out_of_range_is_disabled() {
    let servers = vec![
        ServerRecord { ip: Some(ServerAddr::V4(1)), default_vlan_enabled: true, vlan_id: 4095 },
        ServerRecord { ip: Some(ServerAddr::V4(2)), default_vlan_enabled: true, vlan_id: 0 },
        ServerRecord { ip: Some(ServerAddr::V4(3)), default_vlan_enabled: true, vlan_id: 4094 },
        ServerRecord { ip: Some(ServerAddr::V6(4)), default_vlan_enabled: false, vlan_id: 7 },
    ];
    let s = OxideSettings::new(raw(servers, vec![])).unwrap();
    assert!(s.valid_server(ServerAddr::V4(1)));
    assert_eq!(s.get_server_default_vlan(ServerAddr::V4(1)), None);
    assert_eq!(s.get_server_default_vlan(ServerAddr::V4(2)), None);
    assert_eq!(s.get_server_default_vlan(ServerAddr::V4(3)), Some(4094));
    assert_eq!(s.get_server_default_vlan(ServerAddr::V6(4)), None);
    assert!(s.valid_server(ServerAddr::V6(4)));
    assert!(!s.valid_server(ServerAddr::V4(4)));
    assert_eq!(s.get_server_default_vlan(ServerAddr::V4(9)), None);
}

#[test]
fn later_server_entry_wins() {
    let servers = vec![
        ServerRecord { ip: Some(ServerAddr::V4(1)), default_vlan_enabled: true, vlan_id: 5 },
        ServerRecord { ip: Some(ServerAddr::V4(1)), default_vlan_enabled: true, vlan_id: 6 },
    ];
    let s = OxideSettings::new(raw(servers, vec![])).unwrap();
    assert_eq!(s.get_server_default_vlan(ServerAddr::V4(1)), Some(6));
}

#[test]
fn user_entry_errors() {
    assert_eq!(
        OxideSettings::new(raw(vec![], vec![record("a", "", "", false, 0)])).err(),
        Some(SettingsError::MissingIdentity)
    );
    assert_eq!(
        OxideSettings::new(raw(vec![], vec![record("", "abcd", "", false, 0)])).err(),
        Some(SettingsError::MissingIdentity)
    );
    assert_eq!(
        OxideSettings::new(raw(vec![], vec![record("a", "abcd", "", true, 4095)])).err(),
        Some(SettingsError::VlanOutOfRange)
    );
    assert_eq!(
        OxideSettings::new(raw(vec![], vec![record("a", "abcd", "", true, 4095), record("", "", "", false, 0)])).err(),
        Some(SettingsError::VlanOutOfRange)
    );
    assert!(OxideSettings::new(raw(vec![], vec![record("a", "abcd", "", false, 4095)])).is_ok());
}

#[test]
fn user_vlan_zero_disables_vlan() {
    let e = AuthenticationEntry::from_config(record("a", "abcd", "", true, 0)).unwrap();
    assert!(!e.vlan_enabled);
    assert_eq!(e.get_vlan(), None);
    let e = AuthenticationEntry::from_config(record("a", "abcd", "", true, 4094)).unwrap();
    assert_eq!(e.get_vlan(), Some(4094));
    let e = AuthenticationEntry::from_config(record("a", "abcd", "", false, 12)).unwrap();
    assert_eq!(e.get_vlan(), None);
}

#[test]
fn mac_address_takes_precedence() {
    let e = AuthenticationEntry::from_config(record("a", "abcd", "00:11", false, 0)).unwrap();
    assert_eq!(e.kind, AuthKinds::Mac);
    assert_eq!(e.identity, "00:11");
    assert_eq!(e.password, "00:11");
    let e = AuthenticationEntry::from_config(record("a", "abcd", "", false, 0)).unwrap();
    assert_eq!(e.kind, AuthKinds::User);
    assert_eq!(e.identity, "a");
    assert_eq!(e.password, "abcd");
}

#[test]
fn hash_user_authentication() {
    let users = vec![record("alice", &sha512_hex("hunter2"), "", true, 10)];
    let s = OxideSettings::new(raw(vec![], users)).unwrap();
    assert_eq!(s.authenticate("alice", "hunter2"), (true, Some(10)));
    assert_eq!(s.authenticate("alice", "hunter3"), (false, None));
    assert_eq!(s.authenticate("alice", "Hunter2"), (false, None));
    assert_eq!(s.authenticate("alice", ""), (false, None));
    assert_eq!(s.authenticate("bob", "hunter2"), (false, None));
}

#[test]
fn uppercase_hex_hash_matches() {
    let users = vec![record("alice", &sha512_hex("hunter2").to_uppercase(), "", false, 0)];
    let s = OxideSettings::new(raw(vec![], users)).unwrap();
    assert_eq!(s.authenticate("alice", "hunter2"), (true, None));
}

#[test]
fn invalid_hex_hash_never_matches() {
    let mut bad = sha512_hex("hunter2");
    bad.replace_range(0..1, "g");
    let odd = sha512_hex("hunter2")[1..].to_string();
    let users = vec![record("alice", &bad, "", false, 0), record("carol", &odd, "", false, 0)];
    let s = OxideSettings::new(raw(vec![], users)).unwrap();
    assert_eq!(s.authenticate("alice", "hunter2"), (false, None));
    assert_eq!(s.authenticate("carol", "hunter2"), (false, None));
}

#[test]
fn later_user_entry_wins() {
    let users = vec![
        record("alice", &sha512_hex("old"), "", true, 3),
        record("alice", &sha512_hex("new"), "", true, 4),
    ];
    let s = OxideSettings::new(raw(vec![], users)).unwrap();
    assert_eq!(s.authenticate("alice", "new"), (true, Some(4)));
    assert_eq!(s.authenticate("alice", "old"), (false, None));
}

#[test]
fn mac_user_authentication() {
    let users = vec![record("", "", "aa:bb", true, 20), record("", "", "cc:dd", false, 0)];
    let s = OxideSettings::new(raw(vec![], users)).unwrap();
    assert_eq!(s.authenticate("aa:bb", "aa:bb"), (true, Some(20)));
    assert_eq!(s.authenticate("aa:bb", "AA:BB"), (false, None));
    assert_eq!(s.authenticate("cc:dd", "cc:dd"), (true, None));
    assert_eq!(s.authenticate("cc:dd", "aa:bb"), (false, None));
}
