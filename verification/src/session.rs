//! The per-connection command dispatcher.  A `Session` owns the trace-tag
//! sequencer; each operator command is dispatched into exactly one
//! outbound `Emission` — the encoded message bytes, the tag it carries,
//! and the encoder's advisory warnings — or into an error local to that
//! command.  The caller holds exclusive access to the session and its
//! connection for the whole of one command (validate, encode, write),
//! writes the bytes, and reports the write's success back through
//! `message_emitted`, which advances the tag; a failed write leaves the
//! session untouched and reusable.

use vstd::prelude::*;

use vstd::utf8::encode_utf8;

use crate::codec;
use crate::header::{IpAddress, PeerKind, PerPeerHeader};
use crate::hex::{hex_fail_pos, hex_payload, HexBytes};
use crate::trace::{next_tag, TraceTagSequencer};
use crate::update;
use crate::wire::{
    addr_bytes16, be16, be32, built_pph_bytes, common_header, initiation_msg_bytes, pph_bytes,
    termination_msg_bytes, v_flag_ok,
};

use routes::bmp::encode::{Announcements, Prefixes};

verus! {

/// One outbound message: the bytes to write to the connection, the
/// diagnostic trace tag it is emitted under, and the encoder's advisory
/// warnings (surfaced, never blocking).
#[derive(Debug)]
pub struct Emission {
    pub tag: u8,
    pub bytes: Vec<u8>,
    pub warnings: Vec<String>,
}

/// The closed command surface: the six operator commands, with their
/// typed arguments.  Withdrawals and announcements arrive already parsed
/// by the route-grammar collaborator and pass through opaquely.
pub enum Command {
    Initiation { sys_name: String, sys_descr: String },
    PeerUp {
        kind: PeerKind,
        flags: u8,
        address: IpAddress,
        asn: u32,
        local_address: IpAddress,
        local_port: u16,
        remote_port: u16,
        sent_open_asn: u16,
        received_open_asn: u16,
        sent_bgp_identifier: u32,
        received_bgp_identifier: u32,
    },
    RouteMonitoring {
        kind: PeerKind,
        flags: u8,
        address: IpAddress,
        asn: u32,
        bgp_id: u32,
        withdrawals: Prefixes,
        announcements: Announcements,
    },
    RawRouteMonitoring {
        kind: PeerKind,
        flags: u8,
        address: IpAddress,
        asn: u32,
        bgp_id: u32,
        payload: String,
    },
    PeerDown { kind: PeerKind, flags: u8, address: IpAddress, asn: u32, bgp_id: u32 },
    Termination,
}

/// Why one command failed; the session stays usable either way.
#[derive(Clone, Copy, PartialEq, Eq, Structural, Debug)]
pub enum CommandError {
    UnsupportedPeerKind,
    MalformedHex { position: usize },
    UnencodableRouteSets,
}

/// Whether a command is valid: initiation and termination always are;
/// peer-scoped commands need the supported (global-instance) peer kind;
/// the raw payload must parse as a hex-code list; structured route sets
/// must be within what the UPDATE builder can encode.
pub open spec fn cmd_ok(cmd: Command) -> bool {
    match cmd {
        Command::Initiation { .. } => true,
        Command::PeerUp { kind, .. } => kind == PeerKind::GlobalInstance,
        Command::RouteMonitoring { kind, withdrawals, announcements, .. } => kind
            == PeerKind::GlobalInstance && codec::update_encodable(withdrawals, announcements),
        Command::RawRouteMonitoring { kind, payload, .. } => hex_payload(
            encode_utf8(payload@),
        ) is Some && kind == PeerKind::GlobalInstance,
        Command::PeerDown { kind, .. } => kind == PeerKind::GlobalInstance,
        Command::Termination => true,
    }
}

/// The error an invalid command fails with: a malformed raw payload is
/// reported (with the first bad token's position) before the peer kind
/// is looked at; route sets the UPDATE builder cannot encode are
/// reported after the peer kind; everything else is the unsupported
/// peer kind.
pub open spec fn cmd_err(cmd: Command) -> CommandError {
    match cmd {
        Command::RouteMonitoring { kind, .. } => if kind != PeerKind::GlobalInstance {
            CommandError::UnsupportedPeerKind
        } else {
            CommandError::UnencodableRouteSets
        },
        Command::RawRouteMonitoring { payload, .. } => if hex_payload(
            encode_utf8(payload@),
        ) is None {
            CommandError::MalformedHex {
                position: hex_fail_pos(encode_utf8(payload@), 0) as usize,
            }
        } else {
            CommandError::UnsupportedPeerKind
        },
        _ => CommandError::UnsupportedPeerKind,
    }
}

/// What the emitted bytes and warnings of a valid command hold, per
/// command.  Peer-scoped messages carry the encoder's clock reading in
/// bytes 40..48, so those bytes are not pinned; everything else is
/// stated against the byte models in `wire`.
pub open spec fn emission_matches(cmd: Command, em: Emission) -> bool {
    match cmd {
        Command::Initiation { sys_name, sys_descr } => {
            &&& em.bytes@ == initiation_msg_bytes(encode_utf8(sys_name@), encode_utf8(sys_descr@))
            &&& em.warnings@.len() == 0
        },
        Command::PeerUp {
            kind,
            flags,
            address,
            asn,
            local_address,
            local_port,
            remote_port,
            sent_open_asn,
            received_open_asn,
            sent_bgp_identifier,
            received_bgp_identifier,
        } => {
            &&& em.bytes@.len() == 132
            &&& em.bytes@.subrange(0, 6) == common_header(132, 3)
            &&& em.bytes@.subrange(6, 40) == built_pph_bytes(
                kind,
                flags,
                address,
                asn,
                received_bgp_identifier,
            )
            &&& em.bytes@.subrange(48, 64) == addr_bytes16(local_address)
            &&& em.bytes@.subrange(64, 66) == be16(local_port)
            &&& em.bytes@.subrange(66, 68) == be16(remote_port)
            &&& em.bytes@.subrange(88, 90) == be16(sent_open_asn)
            &&& em.bytes@.subrange(92, 96) == be32(sent_bgp_identifier)
            &&& em.bytes@.subrange(117, 119) == be16(received_open_asn)
            &&& em.bytes@.subrange(121, 125) == be32(received_bgp_identifier)
            &&& em.warnings@.len() == (if v_flag_ok(flags, address) {
                0int
            } else {
                1int
            })
        },
        Command::RouteMonitoring { kind, flags, address, asn, bgp_id, withdrawals, announcements } => {
            let upd = codec::update_bytes_of(flags, withdrawals, announcements);
            &&& em.bytes@.len() == 48 + upd.len()
            &&& em.bytes@.subrange(0, 6) == common_header(em.bytes@.len() as u32, 0)
            &&& em.bytes@.subrange(6, 40) == built_pph_bytes(kind, flags, address, asn, bgp_id)
            &&& em.bytes@.skip(48) == upd
            &&& (!v_flag_ok(flags, address) ==> em.warnings@.len() >= 1)
        },
        Command::RawRouteMonitoring { kind, flags, address, asn, bgp_id, payload } => {
            let pl = hex_payload(encode_utf8(payload@)).unwrap();
            &&& em.bytes@.len() == 48 + pl.len()
            &&& em.bytes@.subrange(0, 6) == common_header((48 + pl.len()) as u32, 0)
            &&& em.bytes@.subrange(6, 40) == built_pph_bytes(kind, flags, address, asn, bgp_id)
            &&& em.bytes@.skip(48) == pl
            &&& em.warnings@.len() == (if v_flag_ok(flags, address) {
                0int
            } else {
                1int
            })
        },
        Command::PeerDown { kind, flags, address, asn, bgp_id } => {
            &&& em.bytes@.len() == 49
            &&& em.bytes@.subrange(0, 6) == common_header(49, 2)
            &&& em.bytes@.subrange(6, 40) == built_pph_bytes(kind, flags, address, asn, bgp_id)
            &&& em.bytes@[48] == 5
            &&& em.warnings@.len() == (if v_flag_ok(flags, address) {
                0int
            } else {
                1int
            })
        },
        Command::Termination => {
            &&& em.bytes@ == termination_msg_bytes()
            &&& em.warnings@.len() == 0
        },
    }
}

/// The per-connection session state: the trace-tag sequencer.  The
/// connection itself lives with the caller, who must serialize command
/// dispatch, the write, and `message_emitted` under one exclusive-access
/// guard per command.
pub struct Session {
    sequencer: TraceTagSequencer,
}

impl Session {
    /// The tag the next emission will carry.
    pub closed spec fn spec_tag(&self) -> u8 {
        self.sequencer.spec_tag()
    }

    pub open spec fn wf(&self) -> bool {
        self.spec_tag() <= 15
    }

    pub fn new(initial_tag: u8) -> (r: Session)
        requires
            initial_tag <= 15,
        ensures
            r.wf(),
            r.spec_tag() == initial_tag,
    {
        Session { sequencer: TraceTagSequencer::new(initial_tag) }
    }

    pub fn current_tag(&self) -> (r: u8)
        ensures
            r == self.spec_tag(),
    {
        self.sequencer.current()
    }

    /// To be called once per successfully written message: advances the
    /// trace tag by the wrap rule and reports the new value.  Not called
    /// after a failed write, so an abandoned command consumes no tag.
    pub fn message_emitted(&mut self) -> (r: u8)
        requires
            old(self).wf(),
        ensures
            final(self).wf(),
            final(self).spec_tag() == next_tag(old(self).spec_tag()),
            r == final(self).spec_tag(),
    {
        self.sequencer.advance()
    }

    /// Turns one command into one outbound message under the current
    /// trace tag, or fails that command alone: exactly the invalid
    /// commands (`cmd_ok`) are rejected, with the error `cmd_err` says.
    /// The session itself is untouched; nothing a command does restricts
    /// the commands that may follow it.
    pub fn dispatch(&self, cmd: &Command) -> (r: Result<Emission, CommandError>)
        requires
            (*cmd matches Command::Initiation { sys_name, sys_descr } ==> encode_utf8(
                sys_name@,
            ).len() <= 0xffff && encode_utf8(sys_descr@).len() <= 0xffff),
            (*cmd matches Command::PeerUp { kind, flags, local_address, .. } ==> (kind
                == PeerKind::GlobalInstance ==> v_flag_ok(flags, local_address))),
        ensures
            r is Ok <==> cmd_ok(*cmd),
            r matches Err(e) ==> e == cmd_err(*cmd),
            r matches Ok(em) ==> em.tag == self.spec_tag() && emission_matches(*cmd, em),
    {
        match cmd {
            Command::Initiation { sys_name, sys_descr } => {
                let bytes = codec::encode_initiation(sys_name.as_str(), sys_descr.as_str());
                Ok(Emission { tag: self.current_tag(), bytes, warnings: Vec::new() })
            },
            Command::PeerUp {
                kind,
                flags,
                address,
                asn,
                local_address,
                local_port,
                remote_port,
                sent_open_asn,
                received_open_asn,
                sent_bgp_identifier,
                received_bgp_identifier,
            } => {
                match PerPeerHeader::build(*kind, *flags, *address, *asn, *received_bgp_identifier) {
                    Err(_) => Err(CommandError::UnsupportedPeerKind),
                    Ok(h) => {
                        let (bytes, warnings) = codec::encode_peer_up(
                            &h,
                            local_address,
                            *local_port,
                            *remote_port,
                            *sent_open_asn,
                            *received_open_asn,
                            *sent_bgp_identifier,
                            *received_bgp_identifier,
                        );
                        proof {
                            assert(pph_bytes(h) =~= built_pph_bytes(
                                *kind,
                                *flags,
                                *address,
                                *asn,
                                *received_bgp_identifier,
                            ));
                        }
                        Ok(Emission { tag: self.current_tag(), bytes, warnings })
                    },
                }
            },
            Command::RouteMonitoring { kind, flags, address, asn, bgp_id, withdrawals, announcements } => {
                match PerPeerHeader::build(*kind, *flags, *address, *asn, *bgp_id) {
                    Err(_) => Err(CommandError::UnsupportedPeerKind),
                    Ok(h) => {
                        let wd_shape = codec::prefix_shape(withdrawals);
                        let (announced, nh, ann_prefixes) = codec::announcement_route_shape(
                            announcements,
                        );
                        let (hops, comms) = codec::announcement_attr_shape(announcements);
                        let ann_shape = update::AnnouncementShape {
                            announced,
                            hops,
                            communities: comms,
                            next_hop: nh,
                            prefixes: ann_prefixes,
                        };
                        if !update::shapes_ok(&wd_shape, &ann_shape) {
                            return Err(CommandError::UnencodableRouteSets);
                        }
                        let (bytes, warnings) = codec::encode_route_monitoring(
                            &h,
                            withdrawals,
                            announcements,
                        );
                        proof {
                            assert(pph_bytes(h) =~= built_pph_bytes(
                                *kind,
                                *flags,
                                *address,
                                *asn,
                                *bgp_id,
                            ));
                        }
                        Ok(Emission { tag: self.current_tag(), bytes, warnings })
                    },
                }
            },
            Command::RawRouteMonitoring { kind, flags, address, asn, bgp_id, payload } => {
                match HexBytes::from_str(payload.as_str()) {
                    Err(e) => Err(CommandError::MalformedHex { position: e.position }),
                    Ok(hb) => {
                        match PerPeerHeader::build(*kind, *flags, *address, *asn, *bgp_id) {
                            Err(_) => Err(CommandError::UnsupportedPeerKind),
                            Ok(h) => {
                                let payload_bytes = hb.to_vec();
                                let (bytes, warnings) = codec::encode_raw_route_monitoring(
                                    &h,
                                    &payload_bytes,
                                );
                                proof {
                                    assert(pph_bytes(h) =~= built_pph_bytes(
                                        *kind,
                                        *flags,
                                        *address,
                                        *asn,
                                        *bgp_id,
                                    ));
                                }
                                Ok(Emission { tag: self.current_tag(), bytes, warnings })
                            },
                        }
                    },
                }
            },
            Command::PeerDown { kind, flags, address, asn, bgp_id } => {
                match PerPeerHeader::build(*kind, *flags, *address, *asn, *bgp_id) {
                    Err(_) => Err(CommandError::UnsupportedPeerKind),
                    Ok(h) => {
                        let (bytes, warnings) = codec::encode_peer_down(&h);
                        proof {
                            assert(pph_bytes(h) =~= built_pph_bytes(
                                *kind,
                                *flags,
                                *address,
                                *asn,
                                *bgp_id,
                            ));
                        }
                        Ok(Emission { tag: self.current_tag(), bytes, warnings })
                    },
                }
            },
            Command::Termination => {
                let bytes = codec::encode_termination();
                Ok(Emission { tag: self.current_tag(), bytes, warnings: Vec::new() })
            },
        }
    }
}

/// Law: two commands dispatched in sequence, each followed by a
/// successful write and `message_emitted`, carry the session tag `t` and
/// then `next_tag(t)` — with tracing enabled at 1, tags 1 then 2; with
/// tracing disabled, 0 then 0, and every later message stays at 0.
pub proof fn lemma_sequential_tags(t: u8)
    requires
        t <= 15,
    ensures
        t == 1 ==> next_tag(t) == 2,
        t == 0 ==> next_tag(t) == 0,
        1 <= t <= 15 ==> 1 <= next_tag(t) <= 15,
{
}

} // verus!
