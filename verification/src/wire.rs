//! Byte-level models of the messages this speaker emits: big-endian
//! integer fields, the BMP common header, information TLVs, and the
//! serialized form of the per-peer header.  The encoding crate produces
//! the real buffers; these spec functions state what those buffers hold.

use vstd::prelude::*;

use crate::header::{IpAddress, PeerKind, PerPeerHeader};

verus! {

/// `n` zero bytes.
pub open spec fn zeros(n: int) -> Seq<u8> {
    Seq::new(n as nat, |i: int| 0u8)
}

/// A 16-bit value, most-significant byte first.
pub open spec fn be16(x: u16) -> Seq<u8> {
    seq![(x >> 8) as u8, (x & 0xff) as u8]
}

/// A 32-bit value, most-significant byte first.
pub open spec fn be32(x: u32) -> Seq<u8> {
    seq![
        (x >> 24) as u8,
        ((x >> 16) & 0xff) as u8,
        ((x >> 8) & 0xff) as u8,
        (x & 0xff) as u8,
    ]
}

/// Executable counterpart of `be32`.
pub fn be32_bytes(x: u32) -> (r: [u8; 4])
    ensures
        r@ == be32(x),
{
    proof {
        assert(x >> 24 <= 0xff) by (bit_vector);
        assert((x >> 16) & 0xff <= 0xff) by (bit_vector);
        assert((x >> 8) & 0xff <= 0xff) by (bit_vector);
        assert(x & 0xff <= 0xff) by (bit_vector);
    }
    let r: [u8; 4] = [
        (x >> 24) as u8,
        ((x >> 16) & 0xff) as u8,
        ((x >> 8) & 0xff) as u8,
        (x & 0xff) as u8,
    ];
    proof {
        assert(r@ =~= be32(x));
    }
    r
}

/// The wire value of a peer kind, per the BMP peer-type registry.
pub open spec fn peer_kind_byte(k: PeerKind) -> u8 {
    match k {
        PeerKind::GlobalInstance => 0,
        PeerKind::RdInstance => 1,
        PeerKind::LocalInstance => 2,
    }
}

/// An address as the 16-byte field of the per-peer header: IPv4 octets
/// are preceded by 12 zero bytes.
pub open spec fn addr_bytes16(a: IpAddress) -> Seq<u8> {
    match a {
        IpAddress::V4(o) => zeros(12) + o@,
        IpAddress::V6(o) => o@,
    }
}

/// Whether the V flag (top bit of the peer flags) is set, announcing an
/// IPv6 peer address.
pub open spec fn v_flag_set(flags: u8) -> bool {
    flags & 0x80 == 0x80
}

/// Whether the V flag agrees with the family of `a`.
pub open spec fn v_flag_ok(flags: u8, a: IpAddress) -> bool {
    match a {
        IpAddress::V4(_) => !v_flag_set(flags),
        IpAddress::V6(_) => v_flag_set(flags),
    }
}

/// Whether the V flag agrees with the peer address family.  The encoder
/// emits one warning per message whose header violates this.
pub open spec fn v_flag_consistent(h: PerPeerHeader) -> bool {
    v_flag_ok(h.flags, h.address)
}

/// The first 34 serialized bytes of a per-peer header: kind, flags,
/// distinguisher, 16-byte address, AS number, BGP identifier.  The
/// 8-byte timestamp that follows them on the wire is the encoder's
/// clock reading and is not modelled.
pub open spec fn pph_bytes(h: PerPeerHeader) -> Seq<u8> {
    seq![peer_kind_byte(h.kind), h.flags] + h.distinguisher@ + addr_bytes16(h.address)
        + be32(h.asn) + h.bgp_id@
}

/// The first 34 serialized bytes of the per-peer header built from raw
/// operator fields: the distinguisher is all-zero and the identifier is
/// the 32-bit value, most-significant byte first.
pub open spec fn built_pph_bytes(
    kind: PeerKind,
    flags: u8,
    address: IpAddress,
    asn: u32,
    bgp_id: u32,
) -> Seq<u8> {
    seq![peer_kind_byte(kind), flags] + zeros(8) + addr_bytes16(address) + be32(asn) + be32(
        bgp_id,
    )
}

/// The 6-byte BMP common header: protocol version 3, total message
/// length, message type.
pub open spec fn common_header(total_len: u32, msg_type: u8) -> Seq<u8> {
    seq![3u8] + be32(total_len) + seq![msg_type]
}

/// An information TLV: 16-bit type, 16-bit value length, value.
pub open spec fn info_tlv(t: u16, v: Seq<u8>) -> Seq<u8> {
    be16(t) + be16(v.len() as u16) + v
}

/// An initiation message: common header, then the system name in a
/// sysName TLV (type 2) and the description in a sysDescr TLV (type 1).
pub open spec fn initiation_msg_bytes(name: Seq<u8>, descr: Seq<u8>) -> Seq<u8> {
    common_header((14 + name.len() + descr.len()) as u32, 4) + info_tlv(2, name)
        + info_tlv(1, descr)
}

/// Law: an initiation message embeds the operator's system name and
/// description verbatim — the name right after its TLV header at byte
/// 10, the description right after its own TLV header — and is a
/// function of the two fields alone, so repeating a command emits a
/// byte-identical message.
pub proof fn lemma_initiation_embeds_fields(name: Seq<u8>, descr: Seq<u8>)
    ensures
        initiation_msg_bytes(name, descr).len() == 14 + name.len() + descr.len(),
        initiation_msg_bytes(name, descr).subrange(10, 10 + name.len() as int) == name,
        initiation_msg_bytes(name, descr).subrange(
            14 + name.len() as int,
            (14 + name.len() + descr.len()) as int,
        ) == descr,
{
    let m = initiation_msg_bytes(name, descr);
    assert(m.subrange(10, 10 + name.len() as int) =~= name);
    assert(m.subrange(14 + name.len() as int, (14 + name.len() + descr.len()) as int) =~= descr);
}

/// A termination message: common header (type 5), then one termination
/// TLV (type 1, "admin close") with a two-byte zero value.
pub open spec fn termination_msg_bytes() -> Seq<u8> {
    seq![3u8, 0u8, 0u8, 0u8, 12u8, 5u8, 0u8, 1u8, 0u8, 2u8, 0u8, 0u8]
}

} // verus!
