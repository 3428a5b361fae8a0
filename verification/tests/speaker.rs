use std::str::FromStr;

use routes::bmp::encode::{Announcements, Prefixes};

use bmp_speaker::header::{HeaderError, IpAddress, PeerKind, PerPeerHeader};
use bmp_speaker::hex::HexBytes;
use bmp_speaker::session::{Command, CommandError, Session};
use bmp_speaker::trace::TraceTagSequencer;

fn global_peer_down(flags: u8, address: IpAddress, asn: u32, bgp_id: u32) -> Command {
    Command::PeerDown { kind: PeerKind::GlobalInstance, flags, address, asn, bgp_id }
}

#[test]
fn tag_advances_and_wraps() {
    let mut seq = TraceTagSequencer::new(1);
    assert_eq!(seq.current(), 1);
    for expected in 2..=15u8 {
        assert_eq!(seq.advance(), expected);
    }
    assert_eq!(seq.advance(), 1, "15 wraps to 1, never to 0");
    assert_eq!(seq.current(), 1);
}

#[test]
fn tag_disabled_is_sticky() {
    let mut seq = TraceTagSequencer::new(0);
    assert_eq!(seq.advance(), 0);
    assert_eq!(seq.advance(), 0);
    assert_eq!(seq.current(), 0);
}

#[test]
fn hex_parses_big_endian_pairs() {
    let h = HexBytes::from_str("0x007b 0x01c8").unwrap();
    assert_eq!(h.to_vec(), vec![0x00, 0x7b, 0x01, 0xc8]);
}

#[test]
fn hex_accepts_commas_and_bare_tokens() {
    let h = HexBytes::from_str("007b,01c8").unwrap();
    assert_eq!(h.to_vec(), vec![0x00, 0x7b, 0x01, 0xc8]);
    // a short token is one 16-bit code: three digits still give two bytes
    let h = HexBytes::from_str("abc").unwrap();
    assert_eq!(h.to_vec(), vec![0x0a, 0xbc]);
}

#[test]
fn hex_empty_input_is_empty_buffer() {
    let h = HexBytes::from_str("").unwrap();
    assert_eq!(h.to_vec(), Vec::<u8>::new());
}

#[test]
fn hex_bad_token_fails_whole_parse() {
    let e = HexBytes::from_str("xyz").unwrap_err();
    assert_eq!(e.position, 0);
    // the first bad token is reported even after good ones
    let e = HexBytes::from_str("0x007b xyz").unwrap_err();
    assert_eq!(e.position, 7);
    // a value over 16 bits is rejected
    let e = HexBytes::from_str("12345").unwrap_err();
    assert_eq!(e.position, 0);
    // a bare prefix with no digits is rejected
    let e = HexBytes::from_str("0x").unwrap_err();
    assert_eq!(e.position, 0);
    // adjacent separators make an empty, malformed token
    let e = HexBytes::from_str("007b,,01c8").unwrap_err();
    assert_eq!(e.position, 5);
}

#[test]
fn global_header_has_zero_distinguisher() {
    let h = PerPeerHeader::build(
        PeerKind::GlobalInstance,
        0xc0,
        IpAddress::V6([1; 16]),
        65000,
        0x01020304,
    )
    .unwrap();
    assert_eq!(h.distinguisher, [0u8; 8]);
    assert_eq!(h.flags, 0xc0);
    assert_eq!(h.asn, 65000);
    assert_eq!(h.bgp_id, [1, 2, 3, 4], "identifier is stored most-significant byte first");
}

#[test]
fn non_global_header_is_unsupported() {
    for kind in [PeerKind::RdInstance, PeerKind::LocalInstance] {
        for flags in [0u8, 0x80] {
            let r = PerPeerHeader::build(kind, flags, IpAddress::V4([10, 0, 0, 1]), 1, 2);
            assert_eq!(r.unwrap_err(), HeaderError::UnsupportedPeerKind);
        }
    }
}

#[test]
fn initiation_bytes_are_exact() {
    let session = Session::new(0);
    let cmd = Command::Initiation { sys_name: "a".to_string(), sys_descr: "b".to_string() };
    let em = session.dispatch(&cmd).unwrap();
    assert_eq!(em.tag, 0);
    assert!(em.warnings.is_empty());
    assert_eq!(
        em.bytes,
        vec![3, 0, 0, 0, 16, 4, 0, 2, 0, 1, b'a', 0, 1, 0, 1, b'b'],
        "common header (version 3, length 16, type 4), sysName TLV, sysDescr TLV"
    );
}

#[test]
fn initiation_repeats_byte_identical_when_tracing_disabled() {
    let mut session = Session::new(0);
    let cmd = Command::Initiation { sys_name: "a".to_string(), sys_descr: "b".to_string() };
    let em1 = session.dispatch(&cmd).unwrap();
    assert_eq!(em1.tag, 0);
    session.message_emitted();
    let em2 = session.dispatch(&cmd).unwrap();
    assert_eq!(em2.tag, 0, "tracing stays off");
    assert_eq!(em1.bytes, em2.bytes, "byte-identical emission");
}

#[test]
fn termination_bytes_are_exact() {
    let session = Session::new(0);
    let em = session.dispatch(&Command::Termination).unwrap();
    assert!(em.warnings.is_empty());
    assert_eq!(
        em.bytes,
        vec![3, 0, 0, 0, 12, 5, 0, 1, 0, 2, 0, 0],
        "common header (type 5) and one admin-close termination TLV"
    );
}

#[test]
fn two_commands_carry_tags_in_emission_order() {
    let mut session = Session::new(1);
    let cmd = Command::Initiation { sys_name: "n".to_string(), sys_descr: "d".to_string() };
    let em1 = session.dispatch(&cmd).unwrap();
    assert_eq!(em1.tag, 1);
    session.message_emitted();
    let em2 = session.dispatch(&Command::Termination).unwrap();
    assert_eq!(em2.tag, 2);
    session.message_emitted();
    assert_eq!(session.current_tag(), 3);
}

#[test]
fn failed_write_leaves_session_usable() {
    let mut session = Session::new(1);
    let em = session.dispatch(&Command::Termination).unwrap();
    assert_eq!(em.tag, 1);
    // the write failed: message_emitted is not called, the command is
    // abandoned, and the next command proceeds normally
    let em = session
        .dispatch(&Command::Initiation { sys_name: "a".to_string(), sys_descr: "b".to_string() })
        .unwrap();
    assert_eq!(em.tag, 1);
    session.message_emitted();
    assert_eq!(session.current_tag(), 2);
}

#[test]
fn peer_down_message_layout() {
    let session = Session::new(0);
    let em = session
        .dispatch(&global_peer_down(0, IpAddress::V4([10, 0, 0, 1]), 12345, 0xdeadbeef))
        .unwrap();
    assert_eq!(em.bytes.len(), 49);
    assert_eq!(&em.bytes[0..6], &[3, 0, 0, 0, 49, 2], "common header, type 2");
    assert_eq!(em.bytes[6], 0, "global-instance peer kind");
    assert_eq!(em.bytes[7], 0, "flags");
    assert_eq!(&em.bytes[8..16], &[0u8; 8], "distinguisher");
    assert_eq!(&em.bytes[16..28], &[0u8; 12], "IPv4 address is left-padded");
    assert_eq!(&em.bytes[28..32], &[10, 0, 0, 1]);
    assert_eq!(&em.bytes[32..36], &12345u32.to_be_bytes());
    assert_eq!(&em.bytes[36..40], &0xdeadbeefu32.to_be_bytes());
    assert_eq!(em.bytes[48], 5, "reason code");
    assert!(em.warnings.is_empty());
}

#[test]
fn peer_down_v_flag_mismatch_warns() {
    let session = Session::new(0);
    let em = session
        .dispatch(&global_peer_down(0x80, IpAddress::V4([10, 0, 0, 1]), 1, 2))
        .unwrap();
    assert_eq!(em.warnings.len(), 1, "V flag set on an IPv4 peer draws one warning");
    let em = session
        .dispatch(&global_peer_down(0, IpAddress::V6([1; 16]), 1, 2))
        .unwrap();
    assert_eq!(em.warnings.len(), 1, "V flag unset on an IPv6 peer draws one warning");
}

#[test]
fn peer_down_unsupported_kind_fails() {
    let session = Session::new(0);
    let r = session.dispatch(&Command::PeerDown {
        kind: PeerKind::RdInstance,
        flags: 0,
        address: IpAddress::V4([10, 0, 0, 1]),
        asn: 1,
        bgp_id: 2,
    });
    assert_eq!(r.unwrap_err(), CommandError::UnsupportedPeerKind);
}

#[test]
fn peer_up_message_layout() {
    let session = Session::new(0);
    let em = session
        .dispatch(&Command::PeerUp {
            kind: PeerKind::GlobalInstance,
            flags: 0,
            address: IpAddress::V4([10, 0, 0, 1]),
            asn: 12345,
            local_address: IpAddress::V4([127, 0, 0, 1]),
            local_port: 80,
            remote_port: 81,
            sent_open_asn: 888,
            received_open_asn: 999,
            sent_bgp_identifier: 7,
            received_bgp_identifier: 9,
        })
        .unwrap();
    assert_eq!(em.bytes.len(), 132);
    assert_eq!(&em.bytes[0..6], &[3, 0, 0, 0, 132, 3], "common header, type 3");
    assert_eq!(em.bytes[6], 0, "global-instance peer kind");
    assert_eq!(&em.bytes[16..28], &[0u8; 12]);
    assert_eq!(&em.bytes[28..32], &[10, 0, 0, 1]);
    assert_eq!(&em.bytes[32..36], &12345u32.to_be_bytes());
    assert_eq!(&em.bytes[36..40], &9u32.to_be_bytes(), "header identifier is the received one");
    assert_eq!(&em.bytes[48..60], &[0u8; 12]);
    assert_eq!(&em.bytes[60..64], &[127, 0, 0, 1], "local address");
    assert_eq!(&em.bytes[64..66], &80u16.to_be_bytes());
    assert_eq!(&em.bytes[66..68], &81u16.to_be_bytes());
    assert_eq!(&em.bytes[88..90], &888u16.to_be_bytes(), "sent OPEN AS number");
    assert_eq!(&em.bytes[92..96], &7u32.to_be_bytes(), "sent BGP identifier");
    assert_eq!(&em.bytes[117..119], &999u16.to_be_bytes(), "received OPEN AS number");
    assert_eq!(&em.bytes[121..125], &9u32.to_be_bytes(), "received BGP identifier");
    assert!(em.warnings.is_empty());
}

#[test]
fn raw_route_monitoring_carries_payload_verbatim() {
    let session = Session::new(0);
    let em = session
        .dispatch(&Command::RawRouteMonitoring {
            kind: PeerKind::GlobalInstance,
            flags: 0,
            address: IpAddress::V4([10, 0, 0, 1]),
            asn: 12345,
            bgp_id: 1,
            payload: "0x0001 0xfffe".to_string(),
        })
        .unwrap();
    assert_eq!(em.bytes.len(), 52);
    assert_eq!(&em.bytes[0..6], &[3, 0, 0, 0, 52, 0], "common header, type 0");
    assert_eq!(&em.bytes[28..32], &[10, 0, 0, 1]);
    assert_eq!(&em.bytes[48..52], &[0x00, 0x01, 0xff, 0xfe]);
    assert!(em.warnings.is_empty());
}

#[test]
fn raw_route_monitoring_rejects_bad_hex() {
    let session = Session::new(0);
    let r = session.dispatch(&Command::RawRouteMonitoring {
        kind: PeerKind::GlobalInstance,
        flags: 0,
        address: IpAddress::V4([10, 0, 0, 1]),
        asn: 1,
        bgp_id: 2,
        payload: "0001 nope".to_string(),
    });
    assert_eq!(r.unwrap_err(), CommandError::MalformedHex { position: 5 });
}

#[test]
fn route_monitoring_message_layout() {
    let session = Session::new(0);
    let em = session
        .dispatch(&Command::RouteMonitoring {
            kind: PeerKind::GlobalInstance,
            flags: 0,
            address: IpAddress::V4([10, 0, 0, 1]),
            asn: 12345,
            bgp_id: 3,
            withdrawals: Prefixes::from_str("127.0.0.1/32").unwrap(),
            announcements: Announcements::from_str("none").unwrap(),
        })
        .unwrap();
    assert!(em.bytes.len() >= 48);
    assert_eq!(em.bytes[0], 3);
    assert_eq!(&em.bytes[1..5], &(em.bytes.len() as u32).to_be_bytes());
    assert_eq!(em.bytes[5], 0, "route monitoring message type");
    assert_eq!(em.bytes[6], 0, "global-instance peer kind");
    assert_eq!(&em.bytes[28..32], &[10, 0, 0, 1]);
    assert_eq!(&em.bytes[32..36], &12345u32.to_be_bytes());
    assert_eq!(&em.bytes[36..40], &3u32.to_be_bytes());
}

#[test]
fn route_monitoring_unsupported_kind_fails() {
    let session = Session::new(0);
    let r = session.dispatch(&Command::RouteMonitoring {
        kind: PeerKind::LocalInstance,
        flags: 0,
        address: IpAddress::V4([10, 0, 0, 1]),
        asn: 1,
        bgp_id: 2,
        withdrawals: Prefixes::from_str("127.0.0.1/32").unwrap(),
        announcements: Announcements::from_str("none").unwrap(),
    });
    assert_eq!(r.unwrap_err(), CommandError::UnsupportedPeerKind);
}

#[test]
fn route_monitoring_oversized_route_sets_fail_locally() {
    // 850 host-route withdrawals take 5 wire bytes each, putting the
    // UPDATE past the encoder's 4096-byte assertion: the command fails
    // locally, nothing is encoded
    let many = vec!["10.1.2.3/32"; 850].join(",");
    let session = Session::new(0);
    let r = session.dispatch(&Command::RouteMonitoring {
        kind: PeerKind::GlobalInstance,
        flags: 0,
        address: IpAddress::V4([10, 0, 0, 1]),
        asn: 1,
        bgp_id: 2,
        withdrawals: Prefixes::from_str(&many).unwrap(),
        announcements: Announcements::from_str("none").unwrap(),
    });
    assert_eq!(r.unwrap_err(), CommandError::UnencodableRouteSets);
}

#[test]
fn route_monitoring_large_route_set_still_encodes() {
    // 300 host-route withdrawals stay well under the 4096-byte budget
    // and must go through
    let many = vec!["10.1.2.3/32"; 300].join(",");
    let session = Session::new(0);
    let em = session
        .dispatch(&Command::RouteMonitoring {
            kind: PeerKind::GlobalInstance,
            flags: 0,
            address: IpAddress::V4([10, 0, 0, 1]),
            asn: 1,
            bgp_id: 2,
            withdrawals: Prefixes::from_str(&many).unwrap(),
            announcements: Announcements::from_str("none").unwrap(),
        })
        .unwrap();
    assert_eq!(em.bytes[5], 0);
    assert!(em.bytes.len() > 48 + 300 * 5, "each withdrawal is on the wire");
}

#[test]
fn route_monitoring_v6_announcement_needs_v6_next_hop() {
    let session = Session::new(0);
    // an IPv6 prefix announced over an IPv4 next hop cannot be encoded
    let r = session.dispatch(&Command::RouteMonitoring {
        kind: PeerKind::GlobalInstance,
        flags: 0,
        address: IpAddress::V4([10, 0, 0, 1]),
        asn: 1,
        bgp_id: 2,
        withdrawals: Prefixes::from_str("none").unwrap(),
        announcements: Announcements::from_str("e [123] 10.0.0.1 none ::1/128").unwrap(),
    });
    assert_eq!(r.unwrap_err(), CommandError::UnencodableRouteSets);
    // with an IPv6 unicast next hop the same announcement goes through
    let em = session
        .dispatch(&Command::RouteMonitoring {
            kind: PeerKind::GlobalInstance,
            flags: 0,
            address: IpAddress::V4([10, 0, 0, 1]),
            asn: 1,
            bgp_id: 2,
            withdrawals: Prefixes::from_str("none").unwrap(),
            announcements: Announcements::from_str("e [123] ::2 none ::1/128").unwrap(),
        })
        .unwrap();
    assert_eq!(em.bytes[5], 0);
    assert_eq!(&em.bytes[1..5], &(em.bytes.len() as u32).to_be_bytes());
}

#[test]
fn peer_up_unsupported_kind_fails_for_any_flags() {
    // the unsupported-kind error comes first even when the V flag
    // disagrees with the local address family
    let session = Session::new(0);
    let r = session.dispatch(&Command::PeerUp {
        kind: PeerKind::RdInstance,
        flags: 0,
        address: IpAddress::V4([10, 0, 0, 1]),
        asn: 1,
        local_address: IpAddress::V6([2; 16]),
        local_port: 80,
        remote_port: 81,
        sent_open_asn: 1,
        received_open_asn: 2,
        sent_bgp_identifier: 3,
        received_bgp_identifier: 4,
    });
    assert_eq!(r.unwrap_err(), CommandError::UnsupportedPeerKind);
}

#[test]
fn hex_bytes_to_vec_returns_decoded_buffer() {
    let h = HexBytes::from_str("0xdead 0xbeef").unwrap();
    assert_eq!(h.to_vec(), vec![0xde, 0xad, 0xbe, 0xef]);
}
