//! Size and validity model of the BGP UPDATE the encoding crate builds
//! from a withdrawal set and an announcement set.  The route sets are
//! opaque outside values; trusted accessors in `codec` hand their
//! contents out as the plain shapes below, and the verified functions
//! here decide — exactly as stated by `shapes_encodable` — whether the
//! UPDATE builder can encode them without tripping its own assertions:
//! an IPv6 announcement demands an IPv6 unicast next hop, every path
//! hop must be a plain AS number (at most 255 of them), IPv6-extended
//! communities are unimplemented, and the whole message must stay
//! within the builder's 4096-byte assertion.  The size model mirrors
//! the builder's arithmetic field by field; only the AS-path size is an
//! upper bound (the builder may use a 2-byte-per-hop legacy form where
//! this model counts 4).

use vstd::prelude::*;

verus! {

/// The kind of one community in an announcement set.
#[derive(Clone, Copy, PartialEq, Eq, Structural, Debug)]
pub enum CommunityKind {
    Standard,
    Extended,
    Ipv6Extended,
    Large,
}

/// How the next hop of an announcement set is addressed.
#[derive(Clone, Copy, PartialEq, Eq, Structural, Debug)]
pub enum NextHopKind {
    UnicastV4,
    UnicastV6,
    Other,
}

/// What an announcement set holds, as plain values: whether there is
/// one at all, per path hop whether it is a plain AS number, the kind
/// of each community, the next-hop kind, and per announced prefix its
/// family (true for IPv4) and bit length.
#[derive(Debug)]
pub struct AnnouncementShape {
    pub announced: bool,
    pub hops: Vec<bool>,
    pub communities: Vec<CommunityKind>,
    pub next_hop: NextHopKind,
    pub prefixes: Vec<(bool, u8)>,
}

/// Wire bytes of one prefix: a length octet plus the prefix bits,
/// rounded up to octets.
pub open spec fn prefix_bytes(bits: u8) -> nat {
    (1 + (bits + 7) / 8) as nat
}

/// Total wire bytes of the prefixes of family `v4` in `s`.
pub open spec fn family_bytes(s: Seq<(bool, u8)>, v4: bool) -> nat
    decreases s.len(),
{
    if s.len() == 0 {
        0
    } else {
        family_bytes(s.drop_last(), v4) + (if s.last().0 == v4 {
            prefix_bytes(s.last().1)
        } else {
            0
        })
    }
}

/// Whether any prefix in `s` is IPv6.
pub open spec fn has_v6(s: Seq<(bool, u8)>) -> bool {
    exists|i: int| 0 <= i < s.len() && !(#[trigger] s[i]).0
}

pub open spec fn all_plain(hops: Seq<bool>) -> bool {
    forall|i: int| 0 <= i < hops.len() ==> hops[i]
}

pub open spec fn kind_count(s: Seq<CommunityKind>, k: CommunityKind) -> nat
    decreases s.len(),
{
    if s.len() == 0 {
        0
    } else {
        kind_count(s.drop_last(), k) + (if s.last() == k {
            1nat
        } else {
            0nat
        })
    }
}

/// A path attribute of `v` value bytes: flags, type, one or two length
/// octets, then the value.
pub open spec fn attr_bytes(v: nat) -> nat {
    if v <= 255 {
        3 + v
    } else {
        4 + v
    }
}

/// The AS-path attribute for `n` plain-AS-number hops: an empty value
/// for an empty path, else one segment of two header bytes and four
/// bytes per hop (the builder's 2-byte legacy form is never larger).
pub open spec fn as_path_attr_bytes(n: nat) -> nat {
    if n == 0 {
        3
    } else {
        attr_bytes(2 + 4 * n)
    }
}

/// A communities attribute holding `n` communities of `sz` bytes each;
/// absent when there are none of that kind.
pub open spec fn communities_attr_bytes(n: nat, sz: nat) -> nat {
    if n == 0 {
        0
    } else {
        attr_bytes(sz * n)
    }
}

/// The path-attribute bytes of an announcement: origin, AS path, a
/// next-hop attribute only for an IPv4 unicast next hop, one attribute
/// per community kind present, and an MP-reach attribute (21 fixed
/// bytes plus the prefixes) only when an IPv6 prefix is announced.
pub open spec fn attrs_bytes(
    hops: Seq<bool>,
    comms: Seq<CommunityKind>,
    next_hop: NextHopKind,
    ann: Seq<(bool, u8)>,
) -> nat {
    4 + as_path_attr_bytes(hops.len()) + (if next_hop == NextHopKind::UnicastV4 {
        7nat
    } else {
        0nat
    }) + communities_attr_bytes(kind_count(comms, CommunityKind::Standard), 4)
        + communities_attr_bytes(kind_count(comms, CommunityKind::Extended), 8)
        + communities_attr_bytes(kind_count(comms, CommunityKind::Large), 12) + (if has_v6(ann) {
        attr_bytes(21 + family_bytes(ann, false))
    } else {
        0nat
    })
}

/// The whole UPDATE: 19 header bytes, the 2-byte withdrawn length, the
/// IPv4 withdrawals (IPv6 withdrawals are collected but never emitted
/// by the builder), the 2-byte attribute length, then — only for an
/// actual announcement — the attributes and the announced IPv4
/// prefixes.
pub open spec fn update_bytes_len(
    wd: Seq<(bool, u8)>,
    announced: bool,
    hops: Seq<bool>,
    comms: Seq<CommunityKind>,
    next_hop: NextHopKind,
    ann: Seq<(bool, u8)>,
) -> nat {
    23 + family_bytes(wd, true) + (if announced {
        attrs_bytes(hops, comms, next_hop, ann) + family_bytes(ann, true)
    } else {
        0nat
    })
}

/// Exactly when the UPDATE builder encodes these shapes without
/// panicking (conservative only in the AS-path size, above): every hop
/// a plain AS number and at most 255 of them, no IPv6-extended
/// community, an IPv6 unicast next hop wherever an IPv6 prefix is
/// announced, and the whole message within 4096 bytes.
pub open spec fn shapes_encodable(
    wd: Seq<(bool, u8)>,
    announced: bool,
    hops: Seq<bool>,
    comms: Seq<CommunityKind>,
    next_hop: NextHopKind,
    ann: Seq<(bool, u8)>,
) -> bool {
    &&& all_plain(hops)
    &&& hops.len() <= 255
    &&& kind_count(comms, CommunityKind::Ipv6Extended) == 0
    &&& (has_v6(ann) ==> next_hop == NextHopKind::UnicastV6)
    &&& update_bytes_len(wd, announced, hops, comms, next_hop, ann) <= 4096
}

/// Decides `shapes_encodable`, clamping each running sum just past the
/// 4096-byte budget so that no machine arithmetic overflows.
#[verifier::loop_isolation(false)]
#[verifier::rlimit(100)]
pub fn shapes_ok(wd: &Vec<(bool, u8)>, sh: &AnnouncementShape) -> (r: bool)
    ensures
        r == shapes_encodable(
            wd@,
            sh.announced,
            sh.hops@,
            sh.communities@,
            sh.next_hop,
            sh.prefixes@,
        ),
{
    // withdrawals: IPv4 wire bytes, clamped at 4097
    let mut wd_v4: u32 = 0;
    let mut i: usize = 0;
    while i < wd.len()
        invariant
            0 <= i <= wd@.len(),
            wd_v4 <= 4097,
            family_bytes(wd@.subrange(0, i as int), true) <= 4096 ==> wd_v4 == family_bytes(
                wd@.subrange(0, i as int),
                true,
            ),
            family_bytes(wd@.subrange(0, i as int), true) > 4096 ==> wd_v4 == 4097,
        decreases wd@.len() - i,
    {
        let p = wd[i];
        let add: u32 = if p.0 {
            1 + ((p.1 as u32) + 7) / 8
        } else {
            0
        };
        proof {
            assert(wd@.subrange(0, i + 1).drop_last() =~= wd@.subrange(0, i as int));
        }
        wd_v4 = if wd_v4 > 4096 || wd_v4 + add > 4096 {
            4097
        } else {
            wd_v4 + add
        };
        i = i + 1;
    }
    proof {
        assert(wd@.subrange(0, wd@.len() as int) =~= wd@);
    }
    // announced prefixes: IPv4 and IPv6 wire bytes (clamped), any IPv6?
    let ps = &sh.prefixes;
    let mut an_v4: u32 = 0;
    let mut an_v6: u32 = 0;
    let mut any_v6: bool = false;
    let mut j: usize = 0;
    while j < ps.len()
        invariant
            0 <= j <= ps@.len(),
            an_v4 <= 4097,
            an_v6 <= 4097,
            family_bytes(ps@.subrange(0, j as int), true) <= 4096 ==> an_v4 == family_bytes(
                ps@.subrange(0, j as int),
                true,
            ),
            family_bytes(ps@.subrange(0, j as int), true) > 4096 ==> an_v4 == 4097,
            family_bytes(ps@.subrange(0, j as int), false) <= 4096 ==> an_v6 == family_bytes(
                ps@.subrange(0, j as int),
                false,
            ),
            family_bytes(ps@.subrange(0, j as int), false) > 4096 ==> an_v6 == 4097,
            any_v6 == has_v6(ps@.subrange(0, j as int)),
            an_v6 > 0 ==> any_v6,
        decreases ps@.len() - j,
    {
        let p = ps[j];
        let add: u32 = 1 + ((p.1 as u32) + 7) / 8;
        proof {
            assert(ps@.subrange(0, j + 1).drop_last() =~= ps@.subrange(0, j as int));
            if !p.0 {
                assert(!ps@.subrange(0, j + 1)[j as int].0);
            }
            if has_v6(ps@.subrange(0, j as int)) {
                let w = choose|k: int|
                    0 <= k < j && !(#[trigger] ps@.subrange(0, j as int)[k]).0;
                assert(!ps@.subrange(0, j + 1)[w].0);
            }
        }
        if p.0 {
            an_v4 = if an_v4 > 4096 || an_v4 + add > 4096 {
                4097
            } else {
                an_v4 + add
            };
        } else {
            any_v6 = true;
            an_v6 = if an_v6 > 4096 || an_v6 + add > 4096 {
                4097
            } else {
                an_v6 + add
            };
        }
        j = j + 1;
    }
    proof {
        assert(ps@.subrange(0, ps@.len() as int) =~= ps@);
    }
    // path hops: all plain AS numbers?
    let mut plain: bool = true;
    let mut k: usize = 0;
    while k < sh.hops.len()
        invariant
            0 <= k <= sh.hops@.len(),
            plain == (forall|m: int| 0 <= m < k ==> #[trigger] sh.hops@[m]),
        decreases sh.hops@.len() - k,
    {
        if !sh.hops[k] {
            plain = false;
        }
        k = k + 1;
    }
    // communities: count each kind, clamped at 2049
    let mut n_std: u32 = 0;
    let mut n_ext: u32 = 0;
    let mut n_lg: u32 = 0;
    let mut n_v6x: u32 = 0;
    let mut c: usize = 0;
    while c < sh.communities.len()
        invariant
            0 <= c <= sh.communities@.len(),
            n_std <= 2049,
            n_ext <= 2049,
            n_lg <= 2049,
            n_v6x <= 2049,
            clamped_count(sh.communities@.subrange(0, c as int), CommunityKind::Standard, n_std),
            clamped_count(sh.communities@.subrange(0, c as int), CommunityKind::Extended, n_ext),
            clamped_count(sh.communities@.subrange(0, c as int), CommunityKind::Large, n_lg),
            clamped_count(
                sh.communities@.subrange(0, c as int),
                CommunityKind::Ipv6Extended,
                n_v6x,
            ),
        decreases sh.communities@.len() - c,
    {
        proof {
            assert(sh.communities@.subrange(0, c + 1).drop_last() =~= sh.communities@.subrange(
                0,
                c as int,
            ));
        }
        let ck = sh.communities[c];
        n_std = bump(n_std, ck == CommunityKind::Standard);
        n_ext = bump(n_ext, ck == CommunityKind::Extended);
        n_lg = bump(n_lg, ck == CommunityKind::Large);
        n_v6x = bump(n_v6x, ck == CommunityKind::Ipv6Extended);
        c = c + 1;
    }
    proof {
        assert(sh.communities@.subrange(0, sh.communities@.len() as int) =~= sh.communities@);
    }
    // the validity conditions that are not about size
    let nh_v6 = matches!(sh.next_hop, NextHopKind::UnicastV6);
    if !plain || sh.hops.len() > 255 || n_v6x > 0 || (any_v6 && !nh_v6) {
        return false;
    }
    // size: any clamped component already breaks the 4096 budget
    if wd_v4 > 4096 {
        return false;
    }
    if !sh.announced {
        return 23 + wd_v4 <= 4096;
    }
    if an_v4 > 4096 || an_v6 > 4096 || n_std > 2048 || n_ext > 2048 || n_lg > 2048 {
        return false;
    }
    let n: u32 = sh.hops.len() as u32;
    let as_path: u32 = if n == 0 {
        3
    } else {
        attr_total(2 + 4 * n)
    };
    let nh: u32 = if matches!(sh.next_hop, NextHopKind::UnicastV4) {
        7
    } else {
        0
    };
    let comm: u32 = comm_total(n_std, 4) + comm_total(n_ext, 8) + comm_total(n_lg, 12);
    let mp: u32 = if any_v6 {
        attr_total(21 + an_v6)
    } else {
        0
    };
    let total: u32 = 23 + wd_v4 + 4 + as_path + nh + comm + mp + an_v4;
    total <= 4096
}

/// The clamp relation each community counter keeps: exact up to 2048,
/// pinned at 2049 beyond.
pub open spec fn clamped_count(s: Seq<CommunityKind>, k: CommunityKind, n: u32) -> bool {
    &&& (kind_count(s, k) <= 2048 ==> n == kind_count(s, k))
    &&& (kind_count(s, k) > 2048 ==> n == 2049)
}

fn bump(n: u32, hit: bool) -> (r: u32)
    requires
        n <= 2049,
    ensures
        n <= 2048 && hit ==> r == n + 1,
        !hit ==> r == n,
        n == 2049 && hit ==> r == 2049,
        r <= 2049,
{
    if hit && n <= 2048 {
        n + 1
    } else {
        n
    }
}

/// Executable counterpart of `attr_bytes`.
fn attr_total(v: u32) -> (r: u32)
    requires
        v <= 0x10000,
    ensures
        r == attr_bytes(v as nat),
{
    if v <= 255 {
        3 + v
    } else {
        4 + v
    }
}

/// Executable counterpart of `communities_attr_bytes`.
fn comm_total(n: u32, sz: u32) -> (r: u32)
    requires
        n <= 2048,
        sz <= 12,
    ensures
        r == communities_attr_bytes(n as nat, sz as nat),
{
    if n == 0 {
        0
    } else {
        proof {
            assert(sz * n <= 24576) by (nonlinear_arith)
                requires
                    sz <= 12,
                    n <= 2048,
            ;
        }
        attr_total(sz * n)
    }
}

} // verus!
