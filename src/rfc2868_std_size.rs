//! Tunnel attributes (RFC 2868) in their standard sizes: tagged integer values
//! take four bytes (tag, one zero byte, the value as a big-endian `u16`).
use vstd::prelude::*;
use crate::packet::add_attribute;

verus! {

pub type TunnelType = u32;

pub type TunnelMediumType = u32;

/// Attribute type of Tunnel-Type.
pub const TUNNEL_TYPE_TYPE: u8 = 64;

/// Attribute type of Tunnel-Medium-Type.
pub const TUNNEL_MEDIUM_TYPE_TYPE: u8 = 65;

/// Attribute type of Tunnel-Private-Group-ID.
pub const TUNNEL_PRIVATE_GROUP_ID_TYPE: u8 = 81;

/// Tag value that marks an attribute as not tagged.
pub const UNUSED_TAG: u8 = 0;

/// The tag byte of an optional tag.
pub open spec fn tag_byte(tag: Option<u8>) -> u8 {
    match tag {
        Some(t) => t,
        None => UNUSED_TAG,
    }
}

/// The value bytes of a tagged integer attribute.
pub open spec fn tagged_u16_value(tag: Option<u8>, value: u16) -> Seq<u8> {
    seq![tag_byte(tag), 0u8, (value / 256) as u8, (value % 256) as u8]
}

/// The ASCII decimal digits of a number, without leading zeros.
pub open spec fn decimal(n: nat) -> Seq<u8>
    decreases n,
{
    if n < 10 {
        seq![(48 + n) as u8]
    } else {
        decimal(n / 10).push((48 + n % 10) as u8)
    }
}

/// The value bytes of a tagged string attribute: the tag, where given, then the text.
pub open spec fn tagged_string_value(tag: Option<u8>, text: Seq<u8>) -> Seq<u8> {
    match tag {
        Some(t) => seq![t] + text,
        None => text,
    }
}

/// Value bytes of a tagged integer attribute.
pub fn from_tagged_u16(tag: Option<u8>, value: u16) -> (r: Vec<u8>)
    ensures
        r@ == tagged_u16_value(tag, value),
{
    let tag = match tag {
        Some(t) => t,
        None => UNUSED_TAG,
    };
    let mut bytes: Vec<u8> = Vec::new();
    bytes.push(tag);
    bytes.push(0u8);
    bytes.push((value / 256) as u8);
    bytes.push((value % 256) as u8);
    assert(bytes@ =~= tagged_u16_value(Some(tag), value));
    bytes
}

/// Appends the decimal digits of `n` to `out`.
pub fn push_decimal(out: &mut Vec<u8>, n: u16)
    ensures
        final(out)@ == old(out)@ + decimal(n as nat),
    decreases n,
{
    if n >= 10 {
        push_decimal(out, n / 10);
    }
    out.push(48u8 + (n % 10) as u8);
    assert(out@ =~= old(out)@ + decimal(n as nat));
}

/// Add `tunnel_medium_type` tagged value-defined integer value to a packet.
pub fn add_tunnel_medium_type(packet: &mut radius::core::packet::Packet, tag: Option<u8>, value: TunnelMediumType)
    ensures
        crate::packet::packet_attrs(*final(packet)) == crate::packet::packet_attrs(*old(packet)).push(
            (TUNNEL_MEDIUM_TYPE_TYPE, tagged_u16_value(tag, value as u16)),
        ),
        crate::packet::packet_code(*final(packet)) == crate::packet::packet_code(*old(packet)),
        crate::packet::same_header(*final(packet), *old(packet)),
{
    let bytes = from_tagged_u16(tag, value as u16);
    add_attribute(packet, TUNNEL_MEDIUM_TYPE_TYPE, bytes.as_slice());
}

/// Add `tunnel_type` tagged value-defined integer value to a packet.
pub fn add_tunnel_type(packet: &mut radius::core::packet::Packet, tag: Option<u8>, value: TunnelType)
    ensures
        crate::packet::packet_attrs(*final(packet)) == crate::packet::packet_attrs(*old(packet)).push(
            (TUNNEL_TYPE_TYPE, tagged_u16_value(tag, value as u16)),
        ),
        crate::packet::packet_code(*final(packet)) == crate::packet::packet_code(*old(packet)),
        crate::packet::same_header(*final(packet), *old(packet)),
{
    let bytes = from_tagged_u16(tag, value as u16);
    add_attribute(packet, TUNNEL_TYPE_TYPE, bytes.as_slice());
}

/// Add `tunnel_private_group_id` tagged string value, the decimal VLAN id, to a packet.
pub fn add_tunnel_private_group_id(packet: &mut radius::core::packet::Packet, tag: Option<u8>, vlan: u16)
    ensures
        crate::packet::packet_attrs(*final(packet)) == crate::packet::packet_attrs(*old(packet)).push(
            (TUNNEL_PRIVATE_GROUP_ID_TYPE, tagged_string_value(tag, decimal(vlan as nat))),
        ),
        crate::packet::packet_code(*final(packet)) == crate::packet::packet_code(*old(packet)),
        crate::packet::same_header(*final(packet), *old(packet)),
{
    let mut bytes: Vec<u8> = Vec::new();
    match tag {
        Some(t) => bytes.push(t),
        None => {},
    }
    push_decimal(&mut bytes, vlan);
    assert(bytes@ =~= tagged_string_value(tag, decimal(vlan as nat)));
    add_attribute(packet, TUNNEL_PRIVATE_GROUP_ID_TYPE, bytes.as_slice());
}

} // verus!
