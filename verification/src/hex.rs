//! The raw-payload parser: a textual list of 16-bit hex codes, separated
//! by spaces or commas, each optionally prefixed with `0x`, becomes a
//! byte buffer with each code contributing two bytes, most-significant
//! first.  One bad token fails the whole parse; an empty input is an
//! empty buffer, not an error.

use vstd::prelude::*;

use crate::wire::be16;
use vstd::string::StringSliceAdditionalSpecFns;

verus! {

/// Token separators: space and comma.
pub open spec fn is_sep(b: u8) -> bool {
    b == 0x20 || b == 0x2c
}

/// ASCII hex digits, either case.
pub open spec fn is_hex_digit(b: u8) -> bool {
    (0x30 <= b && b <= 0x39) || (0x41 <= b && b <= 0x46) || (0x61 <= b && b <= 0x66)
}

pub open spec fn hex_digit_val(b: u8) -> nat {
    if 0x30 <= b && b <= 0x39 {
        (b - 0x30) as nat
    } else if 0x41 <= b && b <= 0x46 {
        (b - 0x41 + 10) as nat
    } else {
        (b - 0x61 + 10) as nat
    }
}

pub open spec fn all_hex_digits(t: Seq<u8>) -> bool {
    forall|i: int| 0 <= i < t.len() ==> is_hex_digit(#[trigger] t[i])
}

/// The value of a string of hex digits, most-significant digit first.
pub open spec fn digits_val(t: Seq<u8>) -> nat
    decreases t.len(),
{
    if t.len() == 0 {
        0
    } else {
        digits_val(t.drop_last()) * 16 + hex_digit_val(t.last())
    }
}

/// A token after stripping an optional `0x` prefix and then an optional
/// `+` sign (the latter accepted by integer parsing).
pub open spec fn strip_token(t: Seq<u8>) -> Seq<u8> {
    let t1 = if t.len() >= 2 && t[0] == 0x30 && t[1] == 0x78 {
        t.skip(2)
    } else {
        t
    };
    if t1.len() >= 1 && t1[0] == 0x2b {
        t1.skip(1)
    } else {
        t1
    }
}

/// The 16-bit value of one token, if it is well formed: after stripping,
/// a non-empty run of hex digits whose value fits 16 bits.
pub open spec fn token_u16(t: Seq<u8>) -> Option<u16> {
    let d = strip_token(t);
    if d.len() > 0 && all_hex_digits(d) && digits_val(d) <= 0xffff {
        Some(digits_val(d) as u16)
    } else {
        None
    }
}

/// Index of the first separator at or after `i`, or the end of `s`.
pub open spec fn token_end(s: Seq<u8>, i: int) -> int
    decreases s.len() - i when 0 <= i <= s.len()
{
    if i >= s.len() {
        s.len() as int
    } else if is_sep(s[i]) {
        i
    } else {
        token_end(s, i + 1)
    }
}

pub proof fn lemma_token_end_bounds(s: Seq<u8>, i: int)
    requires
        0 <= i <= s.len(),
    ensures
        i <= token_end(s, i) <= s.len(),
    decreases s.len() - i,
{
    if i < s.len() && !is_sep(s[i]) {
        lemma_token_end_bounds(s, i + 1);
    }
}

/// `token_end` is exactly the scan result: the first index `j` at or
/// after `i` that is a separator or the end.
pub proof fn lemma_token_end_is(s: Seq<u8>, i: int, j: int)
    requires
        0 <= i <= j <= s.len(),
        forall|k: int| i <= k < j ==> !is_sep(#[trigger] s[k]),
        j == s.len() || is_sep(s[j]),
    ensures
        token_end(s, i) == j,
    decreases j - i,
{
    if i < j {
        lemma_token_end_is(s, i + 1, j);
    }
}

/// The decoded bytes of the non-empty input `s` from position `i` on:
/// each token in turn contributes the two big-endian bytes of its value,
/// and one bad token spoils everything after `i`.
pub open spec fn hex_payload_from(s: Seq<u8>, i: int) -> Option<Seq<u8>>
    decreases s.len() - i when 0 <= i <= s.len()
    via hex_payload_from_decreases
{
    let e = token_end(s, i);
    match token_u16(s.subrange(i, e)) {
        None => None,
        Some(v) => if e >= s.len() {
            Some(be16(v))
        } else {
            match hex_payload_from(s, e + 1) {
                None => None,
                Some(rest) => Some(be16(v) + rest),
            }
        },
    }
}

#[via_fn]
proof fn hex_payload_from_decreases(s: Seq<u8>, i: int) {
    lemma_token_end_bounds(s, i);
}

/// Where a failed parse went wrong: the start of the first bad token.
pub open spec fn hex_fail_pos(s: Seq<u8>, i: int) -> int
    decreases s.len() - i when 0 <= i <= s.len()
    via hex_fail_pos_decreases
{
    let e = token_end(s, i);
    if token_u16(s.subrange(i, e)) is None {
        i
    } else if e >= s.len() {
        i
    } else {
        hex_fail_pos(s, e + 1)
    }
}

#[via_fn]
proof fn hex_fail_pos_decreases(s: Seq<u8>, i: int) {
    lemma_token_end_bounds(s, i);
}

/// What parsing the whole input yields: an empty input is an empty
/// buffer; otherwise the tokens' bytes, or nothing if any token is bad.
pub open spec fn hex_payload(s: Seq<u8>) -> Option<Seq<u8>> {
    if s.len() == 0 {
        Some(Seq::<u8>::empty())
    } else {
        hex_payload_from(s, 0)
    }
}

/// Reports the byte position of the first malformed token.
#[derive(Clone, Copy, PartialEq, Eq, Structural, Debug)]
pub struct HexParseError {
    pub position: usize,
}

/// An ordered byte buffer decoded from a textual hex-code list.
#[derive(Debug)]
pub struct HexBytes {
    bytes: Vec<u8>,
}

impl View for HexBytes {
    type V = Seq<u8>;

    closed spec fn view(&self) -> Seq<u8> {
        self.bytes@
    }
}

impl HexBytes {
    pub fn to_vec(self) -> (r: Vec<u8>)
        ensures
            r@ == self@,
    {
        self.bytes
    }

    /// Parses a hex-code list.  Succeeds exactly when every token is a
    /// well-formed 16-bit hex code (or the input is empty), yielding the
    /// codes' big-endian bytes; otherwise reports where the first bad
    /// token starts, with no partial buffer.
    #[verifier::loop_isolation(false)]
    #[verifier::rlimit(60)]
    pub fn from_str(s: &str) -> (r: Result<HexBytes, HexParseError>)
        ensures
            r is Ok <==> hex_payload(s.spec_bytes()) is Some,
            r matches Ok(h) ==> hex_payload(s.spec_bytes()) == Some(h@),
            r matches Err(e) ==> e.position == hex_fail_pos(s.spec_bytes(), 0),
    {
        let b: &[u8] = s.as_bytes();
        let n: usize = b.len();
        let ghost sq: Seq<u8> = s.spec_bytes();
        let mut out: Vec<u8> = Vec::new();
        if n == 0 {
            return Ok(HexBytes { bytes: out });
        }
        let mut i: usize = 0;
        loop
            invariant
                b@ == sq,
                n == sq.len(),
                0 < n,
                0 <= i <= n,
                hex_payload_from(sq, i as int) matches Some(rest) ==> hex_payload_from(sq, 0)
                    == Some(out@ + rest),
                hex_payload_from(sq, i as int) is None ==> hex_payload_from(sq, 0) is None
                    && hex_fail_pos(sq, 0) == hex_fail_pos(sq, i as int),
            decreases n - i,
        {
            // find the end of the token that starts at i
            let mut j: usize = i;
            while j < n && !(b[j] == 0x20 || b[j] == 0x2c)
                invariant
                    b@ == sq,
                    n == sq.len(),
                    i <= j <= n,
                    forall|k: int| i <= k < j ==> !is_sep(#[trigger] sq[k]),
                decreases n - j,
            {
                j += 1;
            }
            let e: usize = j;
            proof {
                lemma_token_end_is(sq, i as int, e as int);
            }
            let ghost t = sq.subrange(i as int, e as int);
            // strip an optional 0x prefix, then an optional + sign
            let mut k: usize = i;
            if e - i >= 2 && b[i] == 0x30 && b[i + 1] == 0x78 {
                k = i + 2;
            }
            if k < e && b[k] == 0x2b {
                k = k + 1;
            }
            let ghost d = strip_token(t);
            proof {
                assert(d =~= sq.subrange(k as int, e as int));
            }
            if k == e {
                // empty token (possibly after stripping): malformed
                assert(token_u16(t) is None);
                return Err(HexParseError { position: i });
            }
            let ghost k0 = k as int;
            let mut acc: u32 = 0;
            while k < e
                invariant
                    b@ == sq,
                    n == sq.len(),
                    0 <= k0 <= k <= e <= n,
                    d == sq.subrange(k0, e as int),
                    all_hex_digits(d.subrange(0, k - k0)),
                    digits_val(d.subrange(0, k - k0)) <= 0xffff ==> acc == digits_val(
                        d.subrange(0, k - k0),
                    ),
                    digits_val(d.subrange(0, k - k0)) > 0xffff ==> acc == 0x10000,
                    acc <= 0x10000,
                decreases e - k,
            {
                let c: u8 = b[k];
                let v: u32 = if c >= 0x30 && c <= 0x39 {
                    (c - 0x30) as u32
                } else if c >= 0x41 && c <= 0x46 {
                    (c - 0x41) as u32 + 10
                } else if c >= 0x61 && c <= 0x66 {
                    (c - 0x61) as u32 + 10
                } else {
                    // a non-digit in the token: malformed
                    assert(!is_hex_digit(d[k - k0]));
                    assert(token_u16(t) is None);
                    return Err(HexParseError { position: i });
                };
                proof {
                    let p_old = d.subrange(0, k - k0);
                    let p_new = d.subrange(0, k + 1 - k0);
                    assert(p_new.drop_last() =~= p_old);
                    assert(p_new.last() == sq[k as int]);
                    assert(v == hex_digit_val(sq[k as int]));
                }
                acc = if acc > 0xfff || acc * 16 + v > 0xffff {
                    0x10000
                } else {
                    acc * 16 + v
                };
                k += 1;
            }
            proof {
                assert(d.subrange(0, e - k0) =~= d);
            }
            if acc > 0xffff {
                // the token's value does not fit 16 bits: malformed
                assert(token_u16(t) is None);
                return Err(HexParseError { position: i });
            }
            let v16: u16 = acc as u16;
            assert(token_u16(t) == Some(v16));
            proof {
                assert(v16 >> 8 <= 0xff) by (bit_vector);
                assert(v16 & 0xff <= 0xff) by (bit_vector);
            }
            let ghost out_old = out@;
            out.push((v16 >> 8) as u8);
            out.push((v16 & 0xff) as u8);
            proof {
                assert(out@ =~= out_old + be16(v16));
            }
            if e == n {
                proof {
                    assert(hex_payload_from(sq, i as int) == Some(be16(v16)));
                    assert(out_old + be16(v16) =~= out@);
                }
                return Ok(HexBytes { bytes: out });
            }
            proof {
                let rest_opt = hex_payload_from(sq, e + 1);
                if rest_opt is Some {
                    let rest = rest_opt.unwrap();
                    assert(hex_payload_from(sq, i as int) == Some(be16(v16) + rest));
                    assert(out_old + (be16(v16) + rest) =~= out@ + rest);
                }
            }
            i = e + 1;
        }
    }
}

} // verus!
