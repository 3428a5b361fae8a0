//! The per-peer identification header prefixed to peer-scoped messages,
//! and its builder.  Only the global-instance peer kind is supported:
//! any other kind needs a peer distinguisher value this speaker cannot
//! supply yet, and building fails fast rather than guessing one.

use vstd::prelude::*;

use crate::wire;

verus! {

/// How a peer is addressed, per the BMP peer-type registry.
#[derive(Clone, Copy, PartialEq, Eq, Structural, Debug)]
pub enum PeerKind {
    GlobalInstance,
    RdInstance,
    LocalInstance,
}

/// A peer or local network address, as its raw octets.
#[derive(Clone, Copy, Debug)]
pub enum IpAddress {
    V4([u8; 4]),
    V6([u8; 16]),
}

/// Raised when a command names a peer kind the speaker does not support.
#[derive(Clone, Copy, PartialEq, Eq, Structural, Debug)]
pub enum HeaderError {
    UnsupportedPeerKind,
}

/// The structured per-peer identification block: kind, flag set, 8-byte
/// distinguisher, address, AS number, and 4-byte BGP identifier held in
/// network byte order.
#[derive(Debug)]
pub struct PerPeerHeader {
    pub kind: PeerKind,
    pub flags: u8,
    pub distinguisher: [u8; 8],
    pub address: IpAddress,
    pub asn: u32,
    pub bgp_id: [u8; 4],
}

impl PerPeerHeader {
    /// A supported header carries the all-zero distinguisher of the
    /// global-instance kind.
    pub open spec fn wf(&self) -> bool {
        &&& self.kind == PeerKind::GlobalInstance
        &&& self.distinguisher@ == wire::zeros(8)
    }

    /// Builds a header from operator-supplied fields.  The global-instance
    /// kind always succeeds, with an all-zero distinguisher and the 32-bit
    /// identifier serialized most-significant-byte first; every other kind
    /// is unsupported and fails, whatever the other fields hold.
    pub fn build(
        kind: PeerKind,
        flags: u8,
        address: IpAddress,
        asn: u32,
        bgp_id: u32,
    ) -> (r: Result<PerPeerHeader, HeaderError>)
        ensures
            r is Ok <==> kind == PeerKind::GlobalInstance,
            r is Err <==> r == Result::<PerPeerHeader, HeaderError>::Err(
                HeaderError::UnsupportedPeerKind,
            ),
            r matches Ok(h) ==> {
                &&& h.wf()
                &&& h.kind == kind
                &&& h.flags == flags
                &&& h.distinguisher@ == wire::zeros(8)
                &&& h.address == address
                &&& h.asn == asn
                &&& h.bgp_id@ == wire::be32(bgp_id)
            },
    {
        match kind {
            PeerKind::GlobalInstance => {
                let distinguisher: [u8; 8] = [0, 0, 0, 0, 0, 0, 0, 0];
                let bgp_id_bytes = wire::be32_bytes(bgp_id);
                proof {
                    assert(distinguisher@ =~= wire::zeros(8));
                }
                Ok(PerPeerHeader {
                    kind,
                    flags,
                    distinguisher,
                    address,
                    asn,
                    bgp_id: bgp_id_bytes,
                })
            },
            _ => Err(HeaderError::UnsupportedPeerKind),
        }
    }
}

} // verus!
