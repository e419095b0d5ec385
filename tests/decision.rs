use radius_oxide::packet::ResponseCode;
use radius_oxide::settings::{OxideSettings, ServerAddr, ServerRecord, SettingsRecord, UserRecord};
use radius_oxide::{Decision, OxideRequestHandler, OxideSecretProvider};
use sha2::Digest;

const SERVER_1: u32 = 0x0A00_0001;
const SERVER_2: u32 = 0x0A00_0002;
const SERVER_9: u32 = 0x0A00_0009;

fn sha512_hex(text: &str) -> String {
    hex::encode(sha2::Sha512::digest(text.as_bytes()))
}

fn user(name: &str, password: &str, vlan_enabled: bool, vlan_id: u16) -> UserRecord {
    UserRecord {
        username: name.to_string(),
        hash: sha512_hex(password),
        mac_address: String::new(),
        vlan_enabled,
        vlan_id,
    }
}

fn mac_user(mac: &str, vlan_enabled: bool, vlan_id: u16) -> UserRecord {
    UserRecord {
        username: String::new(),
        hash: String::new(),
        mac_address: mac.to_string(),
        vlan_enabled,
        vlan_id,
    }
}

fn server(ip: u32, default_vlan_enabled: bool, vlan_id: u16) -> ServerRecord {
    ServerRecord { ip: Some(ServerAddr::V4(ip)), default_vlan_enabled, vlan_id }
}

fn handler() -> OxideRequestHandler {
    let raw = SettingsRecord {
        listen_address: String::new(),
        listen_address_parses: false,
        listen_port: 0,
        secret: "s3cret".to_string(),
        servers: vec![server(SERVER_1, false, 0), server(SERVER_2, true, 99)],
        users: vec![user("alice", "hunter2", true, 10), mac_user("aa:bb:cc:dd:ee:ff", true, 20)],
    };
    OxideRequestHandler::new(OxideSettings::new(raw).unwrap())
}

fn request(name: Option<&str>, password: Option<&str>) -> radius::core::packet::Packet {
    let mut p = radius::core::packet::Packet::new(radius::core::code::Code::AccessRequest, b"s3cret");
    if let Some(n) = name {
        radius::core::rfc2865::add_user_name(&mut p, n);
    }
    if let Some(pw) = password {
        radius::core::rfc2865::add_user_password(&mut p, pw.as_bytes()).unwrap();
    }
    p
}

fn values(p: &radius::core::packet::Packet, typ: u8) -> Vec<Vec<u8>> {
    p.lookup_all(typ).iter().map(|a| a.encode_bytes()).collect()
}

fn assert_vlan_attrs(p: &radius::core::packet::Packet, vlan: &str) {
    let mut group = vec![1u8];
    group.extend_from_slice(vlan.as_bytes());
    assert_eq!(values(p, 64), vec![vec![1u8, 0, 0, 13]]);
    assert_eq!(values(p, 65), vec![vec![1u8, 0, 0, 6]]);
    assert_eq!(values(p, 81), vec![group]);
}

fn assert_no_tunnel_attrs(p: &radius::core::packet::Packet) {
    assert!(values(p, 64).is_empty());
    assert!(values(p, 65).is_empty());
    assert!(values(p, 81).is_empty());
}

#[test]
fn alice_right_password_gets_her_vlan() {
    let h = handler();
    let resp = h.handle_radius_request(ServerAddr::V4(SERVER_1), &request(Some("alice"), Some("hunter2"))).unwrap();
    assert_eq!(resp.get_code(), radius::core::code::Code::AccessAccept);
    assert_vlan_attrs(&resp, "10");
}

#[test]
fn alice_wrong_password_is_rejected() {
    let h = handler();
    let resp = h.handle_radius_request(ServerAddr::V4(SERVER_1), &request(Some("alice"), Some("wrong"))).unwrap();
    assert_eq!(resp.get_code(), radius::core::code::Code::AccessReject);
    assert_no_tunnel_attrs(&resp);
}

#[test]
fn unknown_user_gets_server_default_vlan() {
    let h = handler();
    let resp = h.handle_radius_request(ServerAddr::V4(SERVER_2), &request(Some("bob"), Some("pw"))).unwrap();
    assert_eq!(resp.get_code(), radius::core::code::Code::AccessAccept);
    assert_vlan_attrs(&resp, "99");
}

#[test]
fn unlisted_server_gets_no_response() {
    let h = handler();
    assert!(h.handle_radius_request(ServerAddr::V4(SERVER_9), &request(Some("alice"), Some("hunter2"))).is_none());
    assert_eq!(h.decide(ServerAddr::V4(SERVER_9), Some("alice"), Some("hunter2")), None);
}

#[test]
fn missing_password_is_rejected_even_with_default_vlan() {
    let h = handler();
    let resp = h.handle_radius_request(ServerAddr::V4(SERVER_2), &request(Some("alice"), None)).unwrap();
    assert_eq!(resp.get_code(), radius::core::code::Code::AccessReject);
    assert_no_tunnel_attrs(&resp);
    let resp = h.handle_radius_request(ServerAddr::V4(SERVER_1), &request(None, Some("hunter2"))).unwrap();
    assert_eq!(resp.get_code(), radius::core::code::Code::AccessReject);
}

#[test]
fn mac_user_authenticates_with_its_address() {
    let h = handler();
    let resp = h
        .handle_radius_request(ServerAddr::V4(SERVER_1), &request(Some("aa:bb:cc:dd:ee:ff"), Some("aa:bb:cc:dd:ee:ff")))
        .unwrap();
    assert_eq!(resp.get_code(), radius::core::code::Code::AccessAccept);
    assert_vlan_attrs(&resp, "20");
    assert_eq!(
        h.decide(ServerAddr::V4(SERVER_1), Some("aa:bb:cc:dd:ee:ff"), Some("AA:BB:CC:DD:EE:FF")),
        Some(Decision { code: ResponseCode::Reject, vlan: None })
    );
}

#[test]
fn failed_authentication_on_server_without_default_is_reject() {
    let h = handler();
    assert_eq!(
        h.decide(ServerAddr::V4(SERVER_1), Some("bob"), Some("x")),
        Some(Decision { code: ResponseCode::Reject, vlan: None })
    );
    assert_eq!(
        h.decide(ServerAddr::V4(SERVER_2), Some("alice"), Some("wrong")),
        Some(Decision { code: ResponseCode::Accept, vlan: Some(99) })
    );
    assert_eq!(
        h.decide(ServerAddr::V4(SERVER_2), Some("alice"), Some("hunter2")),
        Some(Decision { code: ResponseCode::Accept, vlan: Some(10) })
    );
}

#[test]
fn client_tunnel_attributes_are_replaced() {
    let mut resp = radius::core::packet::Packet::new(radius::core::code::Code::AccessAccept, b"s3cret");
    let tag = radius::core::tag::Tag::new(5);
    radius::core::rfc2868::add_tunnel_private_group_id(&mut resp, Some(&tag), "666");
    radius::core::rfc2868::add_tunnel_type(&mut resp, Some(&tag), 3);
    radius::core::rfc2865::add_user_name(&mut resp, "carol");
    radius_oxide::apply_decision(&mut resp, Decision { code: ResponseCode::Accept, vlan: Some(42) });
    assert_vlan_attrs(&resp, "42");
    assert_eq!(values(&resp, 1), vec![b"carol".to_vec()]);
    radius_oxide::apply_decision(&mut resp, Decision { code: ResponseCode::Accept, vlan: Some(42) });
    assert_vlan_attrs(&resp, "42");
    radius_oxide::apply_decision(&mut resp, Decision { code: ResponseCode::Reject, vlan: Some(42) });
    assert_no_tunnel_attrs(&resp);
    assert_eq!(values(&resp, 1), vec![b"carol".to_vec()]);
}

#[test]
fn secret_provider_returns_the_secret_bytes() {
    let p = OxideSecretProvider::new("s3cret");
    assert_eq!(p.fetch_secret(ServerAddr::V4(SERVER_9)), b"s3cret".to_vec());
    assert_eq!(p.fetch_secret(ServerAddr::V6(1)), b"s3cret".to_vec());
}

#[test]
fn non_utf8_password_is_rejected() {
    let h = handler();
    let mut p = radius::core::packet::Packet::new(radius::core::code::Code::AccessRequest, b"s3cret");
    radius::core::rfc2865::add_user_name(&mut p, "alice");
    radius::core::rfc2865::add_user_password(&mut p, &[0xff, 0xfe, 0x41]).unwrap();
    let resp = h.handle_radius_request(ServerAddr::V4(SERVER_2), &p).unwrap();
    assert_eq!(resp.get_code(), radius::core::code::Code::AccessReject);
    assert_no_tunnel_attrs(&resp);
}

#[test]
fn response_keeps_request_identifier() {
    let h = handler();
    let mut p = request(Some("alice"), Some("hunter2"));
    p.set_identifier(77);
    let resp = h.handle_radius_request(ServerAddr::V4(SERVER_1), &p).unwrap();
    assert_eq!(resp.get_identifier(), 77);
    assert_eq!(resp.get_authenticator(), p.get_authenticator());
}
