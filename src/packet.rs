//! The protocol engine's packets, as far as the decision core reads and fills them.
use vstd::prelude::*;
use vstd::utf8::{decode_utf8, encode_utf8, valid_utf8};

verus! {

#[verifier::external_type_specification]
#[verifier::external_body]
pub struct ExPacket(radius::core::packet::Packet);

/// The attributes that a packet carries, in order: each a type and its value bytes.
pub uninterp spec fn packet_attrs(p: radius::core::packet::Packet) -> Seq<(u8, Seq<u8>)>;

/// The code (packet type) of a packet.
pub uninterp spec fn packet_code(p: radius::core::packet::Packet) -> u8;

/// The identifier that pairs a response with its request.
pub uninterp spec fn packet_identifier(p: radius::core::packet::Packet) -> u8;

/// The request authenticator that a packet carries.
pub uninterp spec fn packet_authenticator(p: radius::core::packet::Packet) -> Seq<u8>;

/// The shared secret that a packet is encoded and decoded with.
pub uninterp spec fn packet_secret(p: radius::core::packet::Packet) -> Seq<u8>;

/// The password that a User-Password value hides, given the shared secret and
/// the request authenticator; `None` where it cannot be recovered.
pub uninterp spec fn user_password_of(value: Seq<u8>, secret: Seq<u8>, authenticator: Seq<u8>) -> Option<Seq<u8>>;

/// Code of an Access-Accept packet.
pub const ACCESS_ACCEPT: u8 = 2;

/// Code of an Access-Reject packet.
pub const ACCESS_REJECT: u8 = 3;

/// Attribute type of User-Name.
pub const USER_NAME_TYPE: u8 = 1;

/// Attribute type of User-Password.
pub const USER_PASSWORD_TYPE: u8 = 2;

/// The answer to an access request.
#[derive(Clone, Copy, Debug, PartialEq, Eq, Structural)]
pub enum ResponseCode {
    Accept,
    Reject,
}

/// The packet code of a response code.
pub open spec fn code_value(code: ResponseCode) -> u8 {
    match code {
        ResponseCode::Accept => ACCESS_ACCEPT,
        ResponseCode::Reject => ACCESS_REJECT,
    }
}

/// Keeps the attributes of any other type than `typ`.
pub open spec fn other_type(typ: u8) -> spec_fn((u8, Seq<u8>)) -> bool {
    |a: (u8, Seq<u8>)| a.0 != typ
}

/// The packet's header fields other than its code, which responses built here
/// keep from the packet they start from.
pub open spec fn same_header(a: radius::core::packet::Packet, b: radius::core::packet::Packet) -> bool {
    &&& packet_identifier(a) == packet_identifier(b)
    &&& packet_authenticator(a) == packet_authenticator(b)
    &&& packet_secret(a) == packet_secret(b)
}

/// The user name that a request carries: the first User-Name attribute, where it
/// is UTF-8 text.
pub open spec fn user_of(p: radius::core::packet::Packet) -> Option<Seq<char>> {
    match first_attr(packet_attrs(p), USER_NAME_TYPE) {
        Some(v) => if valid_utf8(v) {
            Some(decode_utf8(v))
        } else {
            None
        },
        None => None,
    }
}

/// The password bytes that a request carries: the first User-Password
/// attribute, recovered with the packet's secret and authenticator.
pub open spec fn password_bytes_of(p: radius::core::packet::Packet) -> Option<Seq<u8>> {
    match first_attr(packet_attrs(p), USER_PASSWORD_TYPE) {
        Some(v) => user_password_of(v, packet_secret(p), packet_authenticator(p)),
        None => None,
    }
}

/// The password that a request carries, where it is UTF-8 text.
pub open spec fn pass_of(p: radius::core::packet::Packet) -> Option<Seq<char>> {
    match password_bytes_of(p) {
        Some(b) => if valid_utf8(b) {
            Some(decode_utf8(b))
        } else {
            None
        },
        None => None,
    }
}

/// The value of the first attribute of the given type.
pub open spec fn first_attr(attrs: Seq<(u8, Seq<u8>)>, typ: u8) -> Option<Seq<u8>>
    decreases attrs.len(),
{
    if attrs.len() == 0 {
        None
    } else if attrs[0].0 == typ {
        Some(attrs[0].1)
    } else {
        first_attr(attrs.drop_first(), typ)
    }
}

/// Relies on `Packet::make_response_packet`: a response to the request with the
/// given code, the request's identifier, authenticator and secret, and no attributes.
#[verifier::external_body]
pub(crate) fn make_response(request: &radius::core::packet::Packet, code: ResponseCode) -> (r: radius::core::packet::Packet)
    ensures
        packet_code(r) == code_value(code),
        packet_identifier(r) == packet_identifier(*request),
        packet_authenticator(r) == packet_authenticator(*request),
        packet_secret(r) == packet_secret(*request),
        packet_attrs(r) == Seq::<(u8, Seq<u8>)>::empty(),
{
    let code = match code {
        ResponseCode::Accept => radius::core::code::Code::AccessAccept,
        ResponseCode::Reject => radius::core::code::Code::AccessReject,
    };
    request.make_response_packet(code)
}

/// Relies on `Packet::delete`: drops every attribute of the type and keeps the
/// others in order.
#[verifier::external_body]
pub(crate) fn delete_attribute(p: &mut radius::core::packet::Packet, typ: u8)
    ensures
        packet_attrs(*final(p)) == packet_attrs(*old(p)).filter(other_type(typ)),
        packet_code(*final(p)) == packet_code(*old(p)),
        packet_identifier(*final(p)) == packet_identifier(*old(p)),
        packet_authenticator(*final(p)) == packet_authenticator(*old(p)),
        packet_secret(*final(p)) == packet_secret(*old(p)),
{
    p.delete(typ)
}

/// Relies on `Packet::add` with `AVP::from_bytes`: appends one attribute holding
/// a copy of the bytes.
#[verifier::external_body]
pub(crate) fn add_attribute(p: &mut radius::core::packet::Packet, typ: u8, value: &[u8])
    ensures
        packet_attrs(*final(p)) == packet_attrs(*old(p)).push((typ, value@)),
        packet_code(*final(p)) == packet_code(*old(p)),
        packet_identifier(*final(p)) == packet_identifier(*old(p)),
        packet_authenticator(*final(p)) == packet_authenticator(*old(p)),
        packet_secret(*final(p)) == packet_secret(*old(p)),
{
    p.add(radius::core::avp::AVP::from_bytes(typ, value))
}

/// Relies on `rfc2865::lookup_user_name` (`AVP::encode_string`, `String::from_utf8`):
/// the first User-Name attribute as text; `None` where there is none or it is not UTF-8.
#[verifier::external_body]
pub(crate) fn lookup_user_name(p: &radius::core::packet::Packet) -> (r: Option<String>)
    ensures
        r is Some <==> (first_attr(packet_attrs(*p), USER_NAME_TYPE) matches Some(v) && valid_utf8(v)),
        r matches Some(s) ==> first_attr(packet_attrs(*p), USER_NAME_TYPE) == Some(encode_utf8(s@)),
{
    match radius::core::rfc2865::lookup_user_name(p) {
        Some(Ok(name)) => Some(name),
        _ => None,
    }
}

/// Relies on `rfc2865::lookup_user_password` (`AVP::encode_user_password`): the
/// first User-Password attribute, recovered with the packet's secret and
/// authenticator, which the result depends on alone; `None` where there is none
/// or it cannot be recovered.
#[verifier::external_body]
pub(crate) fn lookup_user_password(p: &radius::core::packet::Packet) -> (r: Option<Vec<u8>>)
    ensures
        r is Some <==> (first_attr(packet_attrs(*p), USER_PASSWORD_TYPE) matches Some(v)
            && user_password_of(v, packet_secret(*p), packet_authenticator(*p)) is Some),
        r matches Some(b) ==> (first_attr(packet_attrs(*p), USER_PASSWORD_TYPE) matches Some(v)
            && user_password_of(v, packet_secret(*p), packet_authenticator(*p)) == Some(b@)),
{
    match radius::core::rfc2865::lookup_user_password(p) {
        Some(Ok(password)) => Some(password),
        _ => None,
    }
}

/// Relies on `String::from_utf8`: the text that the bytes encode, where they are UTF-8.
#[verifier::external_body]
pub(crate) fn utf8_text(bytes: Vec<u8>) -> (r: Option<String>)
    ensures
        r is Some <==> valid_utf8(bytes@),
        r matches Some(s) ==> encode_utf8(s@) == bytes@,
{
    String::from_utf8(bytes).ok()
}

} // verus!
