//! Trusted boundary to the `routes` BMP encoding crate.  Each wrapper
//! makes one encoder call; its contract states, over the byte models in
//! `wire`, what the encoder's source shows it writes.  The 8-byte
//! timestamp field that peer-scoped messages carry (bytes 40..48) is the
//! encoder's clock reading, so nothing is claimed about those bytes, and
//! buffers holding them are pinned only outside that range.  Writing that
//! timestamp converts the epoch seconds through a checked 32-bit cast,
//! so every peer-scoped encoder call panics on a system clock before
//! 1970 or after early 2106; that depends on the environment alone, not
//! on any argument, and no `requires` can exclude it.

use vstd::prelude::*;

use vstd::string::StringSliceAdditionalSpecFns;

use crate::header::{IpAddress, PeerKind, PerPeerHeader};
use crate::update::{CommunityKind, NextHopKind};
use crate::wire::{
    addr_bytes16, be16, be32, common_header, initiation_msg_bytes, pph_bytes,
    termination_msg_bytes, v_flag_consistent, v_flag_ok,
};

use routecore::asn::Asn;
use routecore::bgp::aspath::Hop;
use routecore::bgp::communities::Community;
use routecore::bgp::types::NextHop;
use routecore::bmp::message::PeerType;
use routes::bmp::encode::{
    mk_initiation_msg, mk_peer_down_notification_msg, mk_peer_up_notification_msg,
    mk_raw_route_monitoring_msg, mk_route_monitoring_msg, mk_termination_msg, Announcements,
};

verus! {

/// A single route prefix of the routing core; carried through opaquely.
#[verifier::external_type_specification]
#[verifier::external_body]
pub struct ExPrefix(routecore::addr::Prefix);

/// Withdrawal prefixes parsed by the route-grammar collaborator; carried
/// through opaquely.
#[verifier::external_type_specification]
#[verifier::external_body]
pub struct ExPrefixes(routes::bmp::encode::Prefixes);

/// Announcements parsed by the route-grammar collaborator; carried
/// through opaquely.
#[verifier::external_type_specification]
#[verifier::external_body]
pub struct ExAnnouncements(routes::bmp::encode::Announcements);

/// Relies on routes' mk_initiation_msg: a common header (type 4), a
/// sysName TLV, a sysDescr TLV, with the total length fixed up.  TLV
/// lengths are 16-bit fields, hence the bounds on the inputs.
#[verifier::external_body]
pub(crate) fn encode_initiation(sys_name: &str, sys_descr: &str) -> (r: Vec<u8>)
    requires
        sys_name.spec_bytes().len() <= 0xffff,
        sys_descr.spec_bytes().len() <= 0xffff,
    ensures
        r@ == initiation_msg_bytes(sys_name.spec_bytes(), sys_descr.spec_bytes()),
{
    mk_initiation_msg(sys_name, sys_descr).to_vec()
}

/// Relies on routes' mk_termination_msg: a constant message, a common
/// header (type 5) and one "admin close" termination TLV.
#[verifier::external_body]
pub(crate) fn encode_termination() -> (r: Vec<u8>)
    ensures
        r@ == termination_msg_bytes(),
{
    mk_termination_msg().to_vec()
}

/// Relies on routes' mk_peer_up_notification_msg, called with no extra
/// information TLVs and an end-of-RIB-capable received OPEN, which makes
/// the message exactly 132 bytes: common header, per-peer header, local
/// address and ports, and two synthetic BGP OPEN messages at fixed
/// offsets.  The encoder asserts that the V flag agrees with the local
/// address family, hence the requires; it emits one warning exactly when
/// the V flag disagrees with the peer address family.
#[verifier::external_body]
pub(crate) fn encode_peer_up(
    h: &PerPeerHeader,
    local_address: &IpAddress,
    local_port: u16,
    remote_port: u16,
    sent_open_asn: u16,
    received_open_asn: u16,
    sent_bgp_identifier: u32,
    received_bgp_identifier: u32,
) -> (r: (Vec<u8>, Vec<String>))
    requires
        v_flag_ok(h.flags, *local_address),
    ensures
        r.0@.len() == 132,
        r.0@.subrange(0, 6) == common_header(132, 3),
        r.0@.subrange(6, 40) == pph_bytes(*h),
        r.0@.subrange(48, 64) == addr_bytes16(*local_address),
        r.0@.subrange(64, 66) == be16(local_port),
        r.0@.subrange(66, 68) == be16(remote_port),
        r.0@.subrange(88, 90) == be16(sent_open_asn),
        r.0@.subrange(92, 96) == be32(sent_bgp_identifier),
        r.0@.subrange(117, 119) == be16(received_open_asn),
        r.0@.subrange(121, 125) == be32(received_bgp_identifier),
        r.1@.len() == (if v_flag_consistent(*h) {
            0int
        } else {
            1int
        }),
{
    let peer_type = match h.kind { PeerKind::GlobalInstance => PeerType::GlobalInstance, PeerKind::RdInstance => PeerType::RdInstance, PeerKind::LocalInstance => PeerType::LocalInstance };
    let peer_address = match h.address { IpAddress::V4(o) => o.into(), IpAddress::V6(o) => o.into() };
    let hdr = routes::bmp::encode::PerPeerHeader { peer_type: peer_type.into(), peer_flags: h.flags, peer_distinguisher: h.distinguisher, peer_address, peer_as: Asn::from_u32(h.asn), peer_bgp_id: h.bgp_id };
    let local = match *local_address { IpAddress::V4(o) => o.into(), IpAddress::V6(o) => o.into() };
    let (bytes, warnings) = mk_peer_up_notification_msg(&hdr, local, local_port, remote_port, sent_open_asn, received_open_asn, sent_bgp_identifier, received_bgp_identifier, vec![], true);
    (bytes.to_vec(), warnings)
}

/// What a withdrawal set holds: per prefix, its family (true for IPv4)
/// and bit length.
pub uninterp spec fn prefix_shapes(withdrawals: routes::bmp::encode::Prefixes) -> Seq<(bool, u8)>;

/// Whether an announcement set announces anything at all.
pub uninterp spec fn announced_flag(announcements: routes::bmp::encode::Announcements) -> bool;

/// What the AS path of an announcement set holds: per hop, whether it
/// is a plain AS number.
pub uninterp spec fn hop_shapes(announcements: routes::bmp::encode::Announcements) -> Seq<bool>;

/// What the community list of an announcement set holds: each
/// community's kind.
pub uninterp spec fn community_shapes(
    announcements: routes::bmp::encode::Announcements,
) -> Seq<CommunityKind>;

/// How the next hop of an announcement set is addressed.
pub uninterp spec fn next_hop_shape(
    announcements: routes::bmp::encode::Announcements,
) -> NextHopKind;

/// What the announced prefixes of an announcement set hold: per prefix,
/// its family (true for IPv4) and bit length.
pub uninterp spec fn announced_shapes(
    announcements: routes::bmp::encode::Announcements,
) -> Seq<(bool, u8)>;

/// Whether the UPDATE builder can turn these route sets into a BGP
/// UPDATE without tripping its own assertions, over the models above;
/// the size and validity rules themselves are verified in `update`.
pub open spec fn update_encodable(
    withdrawals: routes::bmp::encode::Prefixes,
    announcements: routes::bmp::encode::Announcements,
) -> bool {
    crate::update::shapes_encodable(
        prefix_shapes(withdrawals),
        announced_flag(announcements),
        hop_shapes(announcements),
        community_shapes(announcements),
        next_hop_shape(announcements),
        announced_shapes(announcements),
    )
}

/// Relies on Prefixes' deref to a vector of prefixes and on
/// Prefix::addr_and_len: hands out each prefix's family and bit length.
#[verifier::external_body]
pub(crate) fn prefix_shape(withdrawals: &routes::bmp::encode::Prefixes) -> (r: Vec<(bool, u8)>)
    ensures
        r@ == prefix_shapes(*withdrawals),
{
    withdrawals.iter().map(|p| { let (a, l) = p.addr_and_len(); (a.is_ipv4(), l) }).collect()
}

/// Relies on Announcements' next-hop and prefix fields (MyNextHop
/// derefs to a next hop, the prefixes to a vector): hands out whether
/// anything is announced, the next-hop kind, and each announced
/// prefix's family and bit length, item for item.
#[verifier::external_body]
pub(crate) fn announcement_route_shape(
    a: &routes::bmp::encode::Announcements,
) -> (r: (bool, NextHopKind, Vec<(bool, u8)>))
    ensures
        r.0 == announced_flag(*a),
        r.1 == next_hop_shape(*a),
        r.2@ == announced_shapes(*a),
{
    match a {
        Announcements::None => (false, NextHopKind::Other, vec![]),
        Announcements::Some { next_hop, prefixes, .. } => (
            true,
            match **next_hop { NextHop::Unicast(ip) => if ip.is_ipv4() { NextHopKind::UnicastV4 } else { NextHopKind::UnicastV6 }, _ => NextHopKind::Other },
            prefixes.iter().map(|p| { let (ad, l) = p.addr_and_len(); (ad.is_ipv4(), l) }).collect(),
        ),
    }
}

/// Relies on Announcements' AS-path and community fields (MyAsPath
/// derefs to a hop path, MyCommunities to a vector): hands out, per
/// hop, whether it is a plain AS number, and each community's kind,
/// item for item.
#[verifier::external_body]
pub(crate) fn announcement_attr_shape(
    a: &routes::bmp::encode::Announcements,
) -> (r: (Vec<bool>, Vec<CommunityKind>))
    ensures
        r.0@ == hop_shapes(*a),
        r.1@ == community_shapes(*a),
{
    match a {
        Announcements::None => (vec![], vec![]),
        Announcements::Some { as_path, communities, .. } => (
            as_path.iter().map(|h| matches!(h, Hop::Asn(_))).collect(),
            communities.iter().map(|c| match c { Community::Standard(_) => CommunityKind::Standard, Community::Extended(_) => CommunityKind::Extended, Community::Ipv6Extended(_) => CommunityKind::Ipv6Extended, Community::Large(_) => CommunityKind::Large }).collect(),
        ),
    }
}

/// The BGP UPDATE the builder produces from these route sets under
/// these peer flags (one flag bit selects a legacy AS-path form): a
/// function of the three alone.
pub uninterp spec fn update_bytes_of(
    flags: u8,
    withdrawals: routes::bmp::encode::Prefixes,
    announcements: routes::bmp::encode::Announcements,
) -> Seq<u8>;

/// Relies on routes' mk_route_monitoring_msg: a common header (type 0)
/// whose length field is the total length, then the per-peer header,
/// then the BGP UPDATE built from the withdrawals and announcements
/// (verbatim from byte 48, a function of the peer flags and the route
/// sets alone).  A V flag that disagrees with the peer address family
/// adds a warning to whatever the UPDATE builder warned about.  The
/// `requires` excludes the inputs on which the UPDATE builder panics
/// (an IPv6-extended community, a segment-valued or over-long AS path,
/// an IPv6 announcement without an IPv6 unicast next hop, or route
/// sets beyond its 4096-byte assertion): callers establish it through
/// the shape accessors and `update::shapes_ok`, and reject the command
/// where it fails.
#[verifier::external_body]
pub(crate) fn encode_route_monitoring(
    h: &PerPeerHeader,
    withdrawals: &routes::bmp::encode::Prefixes,
    announcements: &routes::bmp::encode::Announcements,
) -> (r: (Vec<u8>, Vec<String>))
    requires
        update_encodable(*withdrawals, *announcements),
    ensures
        r.0@.len() == 48 + update_bytes_of(h.flags, *withdrawals, *announcements).len(),
        r.0@.subrange(0, 6) == common_header(r.0@.len() as u32, 0),
        r.0@.subrange(6, 40) == pph_bytes(*h),
        r.0@.skip(48) == update_bytes_of(h.flags, *withdrawals, *announcements),
        !v_flag_consistent(*h) ==> r.1@.len() >= 1,
{
    let peer_type = match h.kind { PeerKind::GlobalInstance => PeerType::GlobalInstance, PeerKind::RdInstance => PeerType::RdInstance, PeerKind::LocalInstance => PeerType::LocalInstance };
    let peer_address = match h.address { IpAddress::V4(o) => o.into(), IpAddress::V6(o) => o.into() };
    let hdr = routes::bmp::encode::PerPeerHeader { peer_type: peer_type.into(), peer_flags: h.flags, peer_distinguisher: h.distinguisher, peer_address, peer_as: Asn::from_u32(h.asn), peer_bgp_id: h.bgp_id };
    let (bytes, warnings) = mk_route_monitoring_msg(&hdr, withdrawals, announcements, &[]);
    (bytes.to_vec(), warnings)
}

/// Relies on routes' mk_raw_route_monitoring_msg: a common header (type
/// 0), the per-peer header, then the given BGP UPDATE bytes verbatim; one
/// warning exactly when the V flag disagrees with the peer address
/// family.
#[verifier::external_body]
pub(crate) fn encode_raw_route_monitoring(h: &PerPeerHeader, payload: &Vec<u8>) -> (r: (
    Vec<u8>,
    Vec<String>,
))
    ensures
        r.0@.len() == 48 + payload@.len(),
        r.0@.subrange(0, 6) == common_header((48 + payload@.len()) as u32, 0),
        r.0@.subrange(6, 40) == pph_bytes(*h),
        r.0@.skip(48) == payload@,
        r.1@.len() == (if v_flag_consistent(*h) {
            0int
        } else {
            1int
        }),
{
    let peer_type = match h.kind { PeerKind::GlobalInstance => PeerType::GlobalInstance, PeerKind::RdInstance => PeerType::RdInstance, PeerKind::LocalInstance => PeerType::LocalInstance };
    let peer_address = match h.address { IpAddress::V4(o) => o.into(), IpAddress::V6(o) => o.into() };
    let hdr = routes::bmp::encode::PerPeerHeader { peer_type: peer_type.into(), peer_flags: h.flags, peer_distinguisher: h.distinguisher, peer_address, peer_as: Asn::from_u32(h.asn), peer_bgp_id: h.bgp_id };
    let (bytes, warnings) = mk_raw_route_monitoring_msg(&hdr, payload.clone().into());
    (bytes.to_vec(), warnings)
}

/// Relies on routes' mk_peer_down_notification_msg: a 49-byte message,
/// common header (type 2), per-peer header, then reason code 5; one
/// warning exactly when the V flag disagrees with the peer address
/// family.
#[verifier::external_body]
pub(crate) fn encode_peer_down(h: &PerPeerHeader) -> (r: (Vec<u8>, Vec<String>))
    ensures
        r.0@.len() == 49,
        r.0@.subrange(0, 6) == common_header(49, 2),
        r.0@.subrange(6, 40) == pph_bytes(*h),
        r.0@[48] == 5,
        r.1@.len() == (if v_flag_consistent(*h) {
            0int
        } else {
            1int
        }),
{
    let peer_type = match h.kind { PeerKind::GlobalInstance => PeerType::GlobalInstance, PeerKind::RdInstance => PeerType::RdInstance, PeerKind::LocalInstance => PeerType::LocalInstance };
    let peer_address = match h.address { IpAddress::V4(o) => o.into(), IpAddress::V6(o) => o.into() };
    let hdr = routes::bmp::encode::PerPeerHeader { peer_type: peer_type.into(), peer_flags: h.flags, peer_distinguisher: h.distinguisher, peer_address, peer_as: Asn::from_u32(h.asn), peer_bgp_id: h.bgp_id };
    let (bytes, warnings) = mk_peer_down_notification_msg(&hdr);
    (bytes.to_vec(), warnings)
}

} // verus!
