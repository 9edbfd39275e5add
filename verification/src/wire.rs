//! The scalar layer of the wire encoding: a self-describing binary form
//! for nothing, booleans, unsigned integers, opaque doubles, strings and
//! byte blobs, each value tagged by its first byte and encoded in its
//! shortest form.

use vstd::prelude::*;

verus! {

use vstd::string::StrSliceExecFns;
use vstd::string::StringSliceAdditionalSpecFns;
use vstd::utf8::decode_utf8;
use vstd::utf8::encode_utf8;
use vstd::utf8::encode_utf8_decode_utf8;
use vstd::utf8::encode_utf8_valid_utf8;
use vstd::utf8::valid_utf8;

/// One scalar wire value.
#[derive(Debug, Clone)]
pub enum WireScalar {
    /// The absent value.
    Nil,
    /// A boolean.
    Bool(bool),
    /// An unsigned integer.
    UInt(u64),
    /// An IEEE 754 double, carried as its raw bits.
    Num {
        /// The double's bits.
        bits: u64,
    },
    /// A text string.
    Str(String),
    /// A byte blob.
    Bin(Vec<u8>),
}

/// Spec-level form of a scalar wire value.
pub ghost enum WireScalarV {
    /// The absent value.
    Nil,
    /// A boolean.
    Bool(bool),
    /// An unsigned integer.
    UInt(u64),
    /// An IEEE 754 double, carried as its raw bits.
    Num {
        /// The double's bits.
        bits: u64,
    },
    /// A text string.
    Str(Seq<char>),
    /// A byte blob.
    Bin(Seq<u8>),
}

impl View for WireScalar {
    type V = WireScalarV;

    open spec fn view(&self) -> WireScalarV {
        match self {
            WireScalar::Nil => WireScalarV::Nil,
            WireScalar::Bool(b) => WireScalarV::Bool(*b),
            WireScalar::UInt(n) => WireScalarV::UInt(*n),
            WireScalar::Num { bits } => WireScalarV::Num { bits: *bits },
            WireScalar::Str(s) => WireScalarV::Str(s@),
            WireScalar::Bin(d) => WireScalarV::Bin(d@),
        }
    }
}

/// Two big-endian bytes of `n`.
pub open spec fn be16(n: u16) -> Seq<u8> {
    seq![(n / 256) as u8, (n % 256) as u8]
}

/// Four big-endian bytes of `n`.
pub open spec fn be32(n: u32) -> Seq<u8> {
    seq![
        (n / 0x1000000) as u8,
        ((n / 0x10000) % 256) as u8,
        ((n / 256) % 256) as u8,
        (n % 256) as u8,
    ]
}

/// Eight big-endian bytes of `n`: the high word, then the low word.
pub open spec fn be64(n: u64) -> Seq<u8> {
    be32((n / 0x100000000) as u32) + be32((n % 0x100000000) as u32)
}

/// The value two big-endian bytes hold.
pub open spec fn be16_val(b0: u8, b1: u8) -> u16 {
    (b0 * 256 + b1) as u16
}

/// The value four big-endian bytes hold.
pub open spec fn be32_val(b0: u8, b1: u8, b2: u8, b3: u8) -> u32 {
    (b0 * 0x1000000 + b1 * 0x10000 + b2 * 256 + b3) as u32
}

/// The value eight big-endian bytes hold.
pub open spec fn be64_val(s: Seq<u8>, i: int) -> u64 {
    (be32_val(s[i], s[i + 1], s[i + 2], s[i + 3]) * 0x100000000 + be32_val(
        s[i + 4],
        s[i + 5],
        s[i + 6],
        s[i + 7],
    )) as u64
}

/// Big-endian bytes round-trip for 16 bits.
pub proof fn lemma_be16_rt(n: u16)
    ensures
        be16_val(be16(n)[0], be16(n)[1]) == n,
{
}

/// Big-endian bytes round-trip for 32 bits.
pub proof fn lemma_be32_rt(n: u32)
    ensures
        be32_val(be32(n)[0], be32(n)[1], be32(n)[2], be32(n)[3]) == n,
{
}

/// Big-endian bytes round-trip for 64 bits.
pub proof fn lemma_be64_rt(n: u64, s: Seq<u8>, i: int)
    requires
        0 <= i,
        i + 8 <= s.len(),
        s.subrange(i, i + 8) == be64(n),
    ensures
        be64_val(s, i) == n,
{
    assert(s[i] == be64(n)[0] && s[i + 1] == be64(n)[1] && s[i + 2] == be64(n)[2] && s[i + 3]
        == be64(n)[3] && s[i + 4] == be64(n)[4] && s[i + 5] == be64(n)[5] && s[i + 6] == be64(
        n,
    )[6] && s[i + 7] == be64(n)[7]) by {
        assert(s.subrange(i, i + 8)[0] == s[i]);
        assert(s.subrange(i, i + 8)[1] == s[i + 1]);
        assert(s.subrange(i, i + 8)[2] == s[i + 2]);
        assert(s.subrange(i, i + 8)[3] == s[i + 3]);
        assert(s.subrange(i, i + 8)[4] == s[i + 4]);
        assert(s.subrange(i, i + 8)[5] == s[i + 5]);
        assert(s.subrange(i, i + 8)[6] == s[i + 6]);
        assert(s.subrange(i, i + 8)[7] == s[i + 7]);
    };
    let hi = (n / 0x100000000) as u32;
    let lo = (n % 0x100000000) as u32;
    lemma_be32_rt(hi);
    lemma_be32_rt(lo);
    assert(be32_val(s[i], s[i + 1], s[i + 2], s[i + 3]) == hi);
    assert(be32_val(s[i + 4], s[i + 5], s[i + 6], s[i + 7]) == lo);
    assert(hi * 0x100000000 + lo == n);
}

/// The length header of a string of `l` bytes.
pub open spec fn str_header(l: nat) -> Seq<u8> {
    if l < 32 {
        seq![(0xa0 + l) as u8]
    } else if l < 0x100 {
        seq![0xd9u8, l as u8]
    } else if l < 0x10000 {
        seq![0xdau8] + be16(l as u16)
    } else {
        seq![0xdbu8] + be32(l as u32)
    }
}

/// The length header of a blob of `l` bytes.
pub open spec fn bin_header(l: nat) -> Seq<u8> {
    if l < 0x100 {
        seq![0xc4u8, l as u8]
    } else if l < 0x10000 {
        seq![0xc5u8] + be16(l as u16)
    } else {
        seq![0xc6u8] + be32(l as u32)
    }
}

/// A scalar fits the wire: its byte length carries in a 32-bit header.
pub open spec fn scalar_wf(v: WireScalarV) -> bool {
    match v {
        WireScalarV::Str(s) => encode_utf8(s).len() < 0x100000000,
        WireScalarV::Bin(d) => d.len() < 0x100000000,
        _ => true,
    }
}

/// The bytes of one scalar, in its shortest form.
pub open spec fn spec_encode_scalar(v: WireScalarV) -> Seq<u8> {
    match v {
        WireScalarV::Nil => seq![0xc0u8],
        WireScalarV::Bool(b) => if b {
            seq![0xc3u8]
        } else {
            seq![0xc2u8]
        },
        WireScalarV::UInt(n) => if n < 0x80 {
            seq![n as u8]
        } else if n < 0x100 {
            seq![0xccu8, n as u8]
        } else if n < 0x10000 {
            seq![0xcdu8] + be16(n as u16)
        } else if n < 0x100000000 {
            seq![0xceu8] + be32(n as u32)
        } else {
            seq![0xcfu8] + be64(n)
        },
        WireScalarV::Num { bits } => seq![0xcbu8] + be64(bits),
        WireScalarV::Str(s) => str_header(encode_utf8(s).len()) + encode_utf8(s),
        WireScalarV::Bin(d) => bin_header(d.len()) + d,
    }
}

/// Decode one scalar at position `i`: the value and the position after it.
/// Unsigned integers are accepted in any of their forms; a string's bytes
/// must be valid UTF-8.
pub open spec fn spec_decode_scalar(s: Seq<u8>, i: int) -> Option<(WireScalarV, int)> {
    if !(0 <= i < s.len()) {
        None
    } else {
        let b = s[i];
        if b < 0x80 {
            Some((WireScalarV::UInt(b as u64), i + 1))
        } else if b == 0xc0 {
            Some((WireScalarV::Nil, i + 1))
        } else if b == 0xc2 {
            Some((WireScalarV::Bool(false), i + 1))
        } else if b == 0xc3 {
            Some((WireScalarV::Bool(true), i + 1))
        } else if b == 0xcc {
            if i + 2 <= s.len() {
                Some((WireScalarV::UInt(s[i + 1] as u64), i + 2))
            } else {
                None
            }
        } else if b == 0xcd {
            if i + 3 <= s.len() {
                Some((WireScalarV::UInt(be16_val(s[i + 1], s[i + 2]) as u64), i + 3))
            } else {
                None
            }
        } else if b == 0xce {
            if i + 5 <= s.len() {
                Some(
                    (
                        WireScalarV::UInt(be32_val(s[i + 1], s[i + 2], s[i + 3], s[i + 4]) as u64),
                        i + 5,
                    ),
                )
            } else {
                None
            }
        } else if b == 0xcf {
            if i + 9 <= s.len() {
                Some((WireScalarV::UInt(be64_val(s, i + 1)), i + 9))
            } else {
                None
            }
        } else if b == 0xcb {
            if i + 9 <= s.len() {
                Some((WireScalarV::Num { bits: be64_val(s, i + 1) }, i + 9))
            } else {
                None
            }
        } else if 0xa0 <= b && b <= 0xbf {
            let l = (b - 0xa0) as int;
            str_body(s, i + 1, l)
        } else if b == 0xd9 {
            if i + 2 <= s.len() {
                str_body(s, i + 2, s[i + 1] as int)
            } else {
                None
            }
        } else if b == 0xda {
            if i + 3 <= s.len() {
                str_body(s, i + 3, be16_val(s[i + 1], s[i + 2]) as int)
            } else {
                None
            }
        } else if b == 0xdb {
            if i + 5 <= s.len() {
                str_body(s, i + 5, be32_val(s[i + 1], s[i + 2], s[i + 3], s[i + 4]) as int)
            } else {
                None
            }
        } else if b == 0xc4 {
            if i + 2 <= s.len() {
                bin_body(s, i + 2, s[i + 1] as int)
            } else {
                None
            }
        } else if b == 0xc5 {
            if i + 3 <= s.len() {
                bin_body(s, i + 3, be16_val(s[i + 1], s[i + 2]) as int)
            } else {
                None
            }
        } else if b == 0xc6 {
            if i + 5 <= s.len() {
                bin_body(s, i + 5, be32_val(s[i + 1], s[i + 2], s[i + 3], s[i + 4]) as int)
            } else {
                None
            }
        } else {
            None
        }
    }
}

/// A string body of `l` bytes starting at `j`.
pub open spec fn str_body(s: Seq<u8>, j: int, l: int) -> Option<(WireScalarV, int)> {
    if j + l <= s.len() {
        let bytes = s.subrange(j, j + l);
        if valid_utf8(bytes) {
            Some((WireScalarV::Str(decode_utf8(bytes)), j + l))
        } else {
            None
        }
    } else {
        None
    }
}

/// A blob body of `l` bytes starting at `j`.
pub open spec fn bin_body(s: Seq<u8>, j: int, l: int) -> Option<(WireScalarV, int)> {
    if j + l <= s.len() {
        Some((WireScalarV::Bin(s.subrange(j, j + l)), j + l))
    } else {
        None
    }
}

/// Decoding an encoded scalar inside a larger byte sequence yields the
/// scalar back and stops right after it.
pub proof fn lemma_scalar_rt(v: WireScalarV, s: Seq<u8>, i: int)
    requires
        scalar_wf(v),
        0 <= i,
        i + spec_encode_scalar(v).len() <= s.len(),
        s.subrange(i, i + spec_encode_scalar(v).len() as int) == spec_encode_scalar(v),
    ensures
        spec_decode_scalar(s, i) == Some((v, i + spec_encode_scalar(v).len() as int)),
{
    let enc = spec_encode_scalar(v);
    let n = enc.len() as int;
    assert forall|k: int| 0 <= k < n implies s[i + k] == enc[k] by {
        assert(s.subrange(i, i + n)[k] == s[i + k]);
    }
    assert(s[i] == enc[0]) by {
        assert(s.subrange(i, i + n)[0] == s[i]);
    };
    assert(i + 1 <= s.len());
    match v {
        WireScalarV::Nil => {},
        WireScalarV::Bool(b) => {},
        WireScalarV::UInt(u) => {
            if u < 0x80 {
            } else if u < 0x100 {
                assert(s[i + 1] == enc[1]);
            } else if u < 0x10000 {
                let w = be16(u as u16);
                assert(s[i + 1] == enc[1] && enc[1] == w[0]);
                assert(s[i + 2] == enc[2] && enc[2] == w[1]);
                lemma_be16_rt(u as u16);
            } else if u < 0x100000000 {
                let w = be32(u as u32);
                assert(s[i + 1] == enc[1] && enc[1] == w[0]);
                assert(s[i + 2] == enc[2] && enc[2] == w[1]);
                assert(s[i + 3] == enc[3] && enc[3] == w[2]);
                assert(s[i + 4] == enc[4] && enc[4] == w[3]);
                lemma_be32_rt(u as u32);
            } else {
                assert forall|j: int| 0 <= j < 8 implies s.subrange(i + 1, i + 9)[j] == be64(
                    u,
                )[j] by {
                    assert(s[i + (1 + j)] == enc[1 + j]);
                }
                assert(s.subrange(i + 1, i + 9) =~= be64(u));
                lemma_be64_rt(u, s, i + 1);
            }
        },
        WireScalarV::Num { bits } => {
            assert forall|j: int| 0 <= j < 8 implies s.subrange(i + 1, i + 9)[j] == be64(
                bits,
            )[j] by {
                assert(s[i + (1 + j)] == enc[1 + j]);
            }
            assert(s.subrange(i + 1, i + 9) =~= be64(bits));
            lemma_be64_rt(bits, s, i + 1);
        },
        WireScalarV::Str(str_chars) => {
            let bytes = encode_utf8(str_chars);
            let l = bytes.len() as int;
            let h = str_header(bytes.len());
            let hl = h.len() as int;
            assert forall|k: int| 0 <= k < hl implies s[i + k] == h[k] by {
                assert(enc[k] == h[k]);
            }
            assert(s.subrange(i + hl, i + hl + l) =~= bytes) by {
                assert forall|k: int| 0 <= k < l implies s.subrange(i + hl, i + hl + l)[k]
                    == bytes[k] by {
                    assert(enc[hl + k] == bytes[k]);
                    assert(s[i + hl + k] == enc[hl + k]);
                }
            }
            encode_utf8_valid_utf8(str_chars);
            encode_utf8_decode_utf8(str_chars);
            if bytes.len() < 32 {
            } else if bytes.len() < 0x100 {
                assert(s[i + 1] == h[1]);
            } else if bytes.len() < 0x10000 {
                let w = be16(bytes.len() as u16);
                assert(h =~= seq![0xdau8] + w);
                assert(s[i + 1] == h[1] && h[1] == w[0]);
                assert(s[i + 2] == h[2] && h[2] == w[1]);
                lemma_be16_rt(bytes.len() as u16);
            } else {
                let w = be32(bytes.len() as u32);
                assert(h =~= seq![0xdbu8] + w);
                assert(s[i + 1] == h[1] && h[1] == w[0]);
                assert(s[i + 2] == h[2] && h[2] == w[1]);
                assert(s[i + 3] == h[3] && h[3] == w[2]);
                assert(s[i + 4] == h[4] && h[4] == w[3]);
                lemma_be32_rt(bytes.len() as u32);
            }
        },
        WireScalarV::Bin(d) => {
            let l = d.len() as int;
            let h = bin_header(d.len());
            let hl = h.len() as int;
            assert forall|k: int| 0 <= k < hl implies s[i + k] == h[k] by {
                assert(enc[k] == h[k]);
            }
            assert(s.subrange(i + hl, i + hl + l) =~= d) by {
                assert forall|k: int| 0 <= k < l implies s.subrange(i + hl, i + hl + l)[k]
                    == d[k] by {
                    assert(enc[hl + k] == d[k]);
                    assert(s[i + hl + k] == enc[hl + k]);
                }
            }
            if d.len() < 0x100 {
                assert(s[i + 1] == h[1]);
            } else if d.len() < 0x10000 {
                let w = be16(d.len() as u16);
                assert(h =~= seq![0xc5u8] + w);
                assert(s[i + 1] == h[1] && h[1] == w[0]);
                assert(s[i + 2] == h[2] && h[2] == w[1]);
                lemma_be16_rt(d.len() as u16);
            } else {
                let w = be32(d.len() as u32);
                assert(h =~= seq![0xc6u8] + w);
                assert(s[i + 1] == h[1] && h[1] == w[0]);
                assert(s[i + 2] == h[2] && h[2] == w[1]);
                assert(s[i + 3] == h[3] && h[3] == w[2]);
                assert(s[i + 4] == h[4] && h[4] == w[3]);
                lemma_be32_rt(d.len() as u32);
            }
        },
    }
}

/// Append the two big-endian bytes of `n`.
fn push_be16(out: &mut Vec<u8>, n: u16)
    ensures
        final(out)@ == old(out)@ + be16(n),
{
    out.push((n / 256) as u8);
    out.push((n % 256) as u8);
    proof {
        assert(out@ =~= old(out)@ + be16(n));
    }
}

/// Append the four big-endian bytes of `n`.
fn push_be32(out: &mut Vec<u8>, n: u32)
    ensures
        final(out)@ == old(out)@ + be32(n),
{
    out.push((n / 0x1000000) as u8);
    out.push(((n / 0x10000) % 256) as u8);
    out.push(((n / 256) % 256) as u8);
    out.push((n % 256) as u8);
    proof {
        assert(out@ =~= old(out)@ + be32(n));
    }
}

/// Append the eight big-endian bytes of `n`.
fn push_be64(out: &mut Vec<u8>, n: u64)
    ensures
        final(out)@ == old(out)@ + be64(n),
{
    push_be32(out, (n / 0x100000000) as u32);
    push_be32(out, (n % 0x100000000) as u32);
    proof {
        assert(out@ =~= old(out)@ + be64(n));
    }
}

/// Append a copy of `src`.
#[verifier::loop_isolation(false)]
pub fn push_bytes_pub(out: &mut Vec<u8>, src: &Vec<u8>)
    ensures
        final(out)@ == old(out)@ + src@,
{
    let n = src.len();
    let mut i: usize = 0;
    while i < n
        invariant
            0 <= i <= n,
            n == src@.len(),
            out@ == old(out)@ + src@.subrange(0, i as int),
        decreases n - i,
    {
        out.push(src[i]);
        proof {
            assert(out@ =~= old(out)@ + src@.subrange(0, i as int + 1));
        }
        i += 1;
    }
    proof {
        assert(out@ =~= old(out)@ + src@);
    }
}

/// Append the shortest encoding of `v`. Refused, with nothing appended,
/// only when a string or blob is too long for a 32-bit header.
pub fn encode_scalar(out: &mut Vec<u8>, v: &WireScalar) -> (ok: bool)
    ensures
        ok ==> scalar_wf(v@) && final(out)@ == old(out)@ + spec_encode_scalar(v@),
        !ok ==> !scalar_wf(v@) && final(out)@ == old(out)@,
{
    match v {
        WireScalar::Nil => {
            out.push(0xc0);
            proof {
                assert(out@ =~= old(out)@ + spec_encode_scalar(v@));
            }
            true
        },
        WireScalar::Bool(b) => {
            if *b {
                out.push(0xc3);
            } else {
                out.push(0xc2);
            }
            proof {
                assert(out@ =~= old(out)@ + spec_encode_scalar(v@));
            }
            true
        },
        WireScalar::UInt(nr) => {
            let n = *nr;
            if n < 0x80 {
                out.push(n as u8);
                proof {
                    assert(out@ =~= old(out)@ + spec_encode_scalar(v@));
                }
            } else if n < 0x100 {
                out.push(0xcc);
                out.push(n as u8);
                proof {
                    assert(out@ =~= old(out)@ + spec_encode_scalar(v@));
                }
            } else if n < 0x10000 {
                out.push(0xcd);
                push_be16(out, n as u16);
                proof {
                    assert(out@ =~= old(out)@ + spec_encode_scalar(v@));
                }
            } else if n < 0x100000000 {
                out.push(0xce);
                push_be32(out, n as u32);
                proof {
                    assert(out@ =~= old(out)@ + spec_encode_scalar(v@));
                }
            } else {
                out.push(0xcf);
                push_be64(out, n);
                proof {
                    assert(out@ =~= old(out)@ + spec_encode_scalar(v@));
                }
            }
            true
        },
        WireScalar::Num { bits } => {
            out.push(0xcb);
            push_be64(out, *bits);
            proof {
                assert(out@ =~= old(out)@ + spec_encode_scalar(v@));
            }
            true
        },
        WireScalar::Str(s) => {
            let bytes = s.as_str().as_bytes_vec();
            if bytes.len() as u64 >= 0x100000000 {
                return false;
            }
            let l = bytes.len();
            if l < 32 {
                out.push(0xa0 + l as u8);
            } else if l < 0x100 {
                out.push(0xd9);
                out.push(l as u8);
            } else if l < 0x10000 {
                out.push(0xda);
                push_be16(out, l as u16);
            } else {
                out.push(0xdb);
                push_be32(out, l as u32);
            }
            proof {
                assert(out@ =~= old(out)@ + str_header(bytes@.len()));
            }
            push_bytes_pub(out, &bytes);
            proof {
                assert(out@ =~= old(out)@ + spec_encode_scalar(v@));
            }
            true
        },
        WireScalar::Bin(d) => {
            if d.len() as u64 >= 0x100000000 {
                return false;
            }
            let l = d.len();
            if l < 0x100 {
                out.push(0xc4);
                out.push(l as u8);
            } else if l < 0x10000 {
                out.push(0xc5);
                push_be16(out, l as u16);
            } else {
                out.push(0xc6);
                push_be32(out, l as u32);
            }
            proof {
                assert(out@ =~= old(out)@ + bin_header(d@.len()));
            }
            push_bytes_pub(out, d);
            proof {
                assert(out@ =~= old(out)@ + spec_encode_scalar(v@));
            }
            true
        },
    }
}

/// The two big-endian bytes at `j`, as a value.
fn get_be16(s: &Vec<u8>, j: usize) -> (r: u16)
    requires
        j + 2 <= s@.len(),
    ensures
        r == be16_val(s@[j as int], s@[j as int + 1]),
{
    let n = s.len();
    (s[j] as u16) * 256 + (s[j + 1] as u16)
}

/// The four big-endian bytes at `j`, as a value.
fn get_be32(s: &Vec<u8>, j: usize) -> (r: u32)
    requires
        j + 4 <= s@.len(),
    ensures
        r == be32_val(s@[j as int], s@[j as int + 1], s@[j as int + 2], s@[j as int + 3]),
{
    let n = s.len();
    (s[j] as u32) * 0x1000000 + (s[j + 1] as u32) * 0x10000 + (s[j + 2] as u32) * 256 + (s[j
        + 3] as u32)
}

/// The eight big-endian bytes at `j`, as a value.
fn get_be64(s: &Vec<u8>, j: usize) -> (r: u64)
    requires
        j + 8 <= s@.len(),
    ensures
        r == be64_val(s@, j as int),
{
    let n = s.len();
    let hi = get_be32(s, j);
    let lo = get_be32(s, j + 4);
    (hi as u64) * 0x100000000 + (lo as u64)
}

/// An owned copy of `s[from .. to]`.
#[verifier::loop_isolation(false)]
pub fn copy_range(s: &Vec<u8>, from: usize, to: usize) -> (r: Vec<u8>)
    requires
        from <= to <= s@.len(),
    ensures
        r@ == s@.subrange(from as int, to as int),
{
    let mut out: Vec<u8> = Vec::new();
    let mut i: usize = from;
    while i < to
        invariant
            from <= i <= to,
            out@ == s@.subrange(from as int, i as int),
        decreases to - i,
    {
        out.push(s[i]);
        proof {
            assert(out@ =~= s@.subrange(from as int, i as int + 1));
        }
        i += 1;
    }
    out
}

/// An owned copy of the whole byte vector.
pub fn dup_bytes(s: &Vec<u8>) -> (r: Vec<u8>)
    ensures
        r@ == s@,
{
    let r = copy_range(s, 0, s.len());
    proof {
        assert(r@ =~= s@);
    }
    r
}

/// Decode one scalar at position `i`, yielding the value and the position
/// after it.
pub fn decode_scalar(s: &Vec<u8>, i: usize) -> (r: Option<(WireScalar, usize)>)
    ensures
        match r {
            Some(p) => spec_decode_scalar(s@, i as int) == Some((p.0@, p.1 as int)) && i < p.1
                <= s@.len(),
            None => spec_decode_scalar(s@, i as int) is None,
        },
{
    if i >= s.len() {
        return None;
    }
    let b = s[i];
    if b < 0x80 {
        Some((WireScalar::UInt(b as u64), i + 1))
    } else if b == 0xc0 {
        Some((WireScalar::Nil, i + 1))
    } else if b == 0xc2 {
        Some((WireScalar::Bool(false), i + 1))
    } else if b == 0xc3 {
        Some((WireScalar::Bool(true), i + 1))
    } else if b == 0xcc {
        if s.len() - i >= 2 {
            Some((WireScalar::UInt(s[i + 1] as u64), i + 2))
        } else {
            None
        }
    } else if b == 0xcd {
        if s.len() - i >= 3 {
            Some((WireScalar::UInt(get_be16(s, i + 1) as u64), i + 3))
        } else {
            None
        }
    } else if b == 0xce {
        if s.len() - i >= 5 {
            Some((WireScalar::UInt(get_be32(s, i + 1) as u64), i + 5))
        } else {
            None
        }
    } else if b == 0xcf {
        if s.len() - i >= 9 {
            Some((WireScalar::UInt(get_be64(s, i + 1)), i + 9))
        } else {
            None
        }
    } else if b == 0xcb {
        if s.len() - i >= 9 {
            Some((WireScalar::Num { bits: get_be64(s, i + 1) }, i + 9))
        } else {
            None
        }
    } else if 0xa0 <= b && b <= 0xbf {
        decode_str_body(s, i + 1, (b - 0xa0) as usize)
    } else if b == 0xd9 {
        if s.len() - i >= 2 {
            decode_str_body(s, i + 2, s[i + 1] as usize)
        } else {
            None
        }
    } else if b == 0xda {
        if s.len() - i >= 3 {
            decode_str_body(s, i + 3, get_be16(s, i + 1) as usize)
        } else {
            None
        }
    } else if b == 0xdb {
        if s.len() - i >= 5 {
            let l = get_be32(s, i + 1);
            if l as u64 > usize::MAX as u64 {
                proof {
                    assert(i + 5 + l > s@.len());
                }
                None
            } else {
                decode_str_body(s, i + 5, l as usize)
            }
        } else {
            None
        }
    } else if b == 0xc4 {
        if s.len() - i >= 2 {
            decode_bin_body(s, i + 2, s[i + 1] as usize)
        } else {
            None
        }
    } else if b == 0xc5 {
        if s.len() - i >= 3 {
            decode_bin_body(s, i + 3, get_be16(s, i + 1) as usize)
        } else {
            None
        }
    } else if b == 0xc6 {
        if s.len() - i >= 5 {
            let l = get_be32(s, i + 1);
            if l as u64 > usize::MAX as u64 {
                proof {
                    assert(i + 5 + l > s@.len());
                }
                None
            } else {
                decode_bin_body(s, i + 5, l as usize)
            }
        } else {
            None
        }
    } else {
        None
    }
}

/// Decode a string body of `l` bytes at `j`.
fn decode_str_body(s: &Vec<u8>, j: usize, l: usize) -> (r: Option<(WireScalar, usize)>)
    requires
        0 < j <= s@.len(),
    ensures
        match r {
            Some(p) => str_body(s@, j as int, l as int) == Some((p.0@, p.1 as int)) && j <= p.1
                <= s@.len(),
            None => str_body(s@, j as int, l as int) is None,
        },
{
    if l > s.len() - j {
        return None;
    }
    let bytes = copy_range(s, j, j + l);
    match crate::strutil::bytes_to_string(bytes) {
        Some(text) => Some((WireScalar::Str(text), j + l)),
        None => None,
    }
}

/// An entry list fits one compact map: fewer than sixteen entries, every
/// key and value within the 32-bit size headers.
pub open spec fn entries_wf(es: Seq<(Seq<char>, WireScalarV)>) -> bool {
    &&& es.len() < 16
    &&& forall|k: int|
        0 <= k < es.len() ==> scalar_wf(WireScalarV::Str((#[trigger] es[k]).0)) && scalar_wf(
            es[k].1,
        )
}

/// The bytes of the entries from `idx` on: each key as a string scalar,
/// then its value.
pub open spec fn spec_encode_entries_from(es: Seq<(Seq<char>, WireScalarV)>, idx: int) -> Seq<u8>
    decreases es.len() - idx,
{
    if !(0 <= idx < es.len()) {
        Seq::empty()
    } else {
        spec_encode_scalar(WireScalarV::Str(es[idx].0)) + spec_encode_scalar(es[idx].1)
            + spec_encode_entries_from(es, idx + 1)
    }
}

/// The bytes of a whole entry map: a compact header carrying the count,
/// then the entries.
pub open spec fn spec_encode_entry_map(es: Seq<(Seq<char>, WireScalarV)>) -> Seq<u8> {
    seq![(0x80 + es.len()) as u8] + spec_encode_entries_from(es, 0)
}

/// Parse `cnt` entries from position `i`, keys first: every key must be a
/// string scalar.
pub open spec fn spec_parse_entry_list(
    s: Seq<u8>,
    i: int,
    cnt: nat,
    acc: Seq<(Seq<char>, WireScalarV)>,
) -> Option<(Seq<(Seq<char>, WireScalarV)>, int)>
    decreases cnt,
{
    if cnt == 0 {
        Some((acc, i))
    } else {
        match spec_decode_scalar(s, i) {
            Some(kp) => match kp.0 {
                WireScalarV::Str(k) => match spec_decode_scalar(s, kp.1) {
                    Some(vp) => spec_parse_entry_list(
                        s,
                        vp.1,
                        (cnt - 1) as nat,
                        acc.push((k, vp.0)),
                    ),
                    None => None,
                },
                _ => None,
            },
            None => None,
        }
    }
}

/// Parse an entry map at `i`: a compact or extended map header, then its
/// entries.
pub open spec fn spec_parse_entries(s: Seq<u8>, i: int) -> Option<
    (Seq<(Seq<char>, WireScalarV)>, int),
> {
    if !(0 <= i < s.len()) {
        None
    } else {
        let b = s[i];
        if 0x80 <= b && b <= 0x8f {
            spec_parse_entry_list(s, i + 1, (b - 0x80) as nat, Seq::empty())
        } else if b == 0xde {
            if i + 3 <= s.len() {
                spec_parse_entry_list(s, i + 3, be16_val(s[i + 1], s[i + 2]) as nat, Seq::empty())
            } else {
                None
            }
        } else if b == 0xdf {
            if i + 5 <= s.len() {
                spec_parse_entry_list(
                    s,
                    i + 5,
                    be32_val(s[i + 1], s[i + 2], s[i + 3], s[i + 4]) as nat,
                    Seq::empty(),
                )
            } else {
                None
            }
        } else {
            None
        }
    }
}

/// A subrange equal to a concatenation splits into subranges equal to the
/// parts.
pub proof fn lemma_subrange_split(s: Seq<u8>, i: int, a: Seq<u8>, b: Seq<u8>)
    requires
        0 <= i,
        i + a.len() + b.len() <= s.len(),
        s.subrange(i, i + a.len() + b.len()) == a + b,
    ensures
        s.subrange(i, i + a.len() as int) == a,
        s.subrange(i + a.len() as int, i + a.len() + b.len()) == b,
{
    let al = a.len() as int;
    let bl = b.len() as int;
    assert forall|k: int| 0 <= k < al implies s.subrange(i, i + al)[k] == a[k] by {
        assert(s.subrange(i, i + al + bl)[k] == (a + b)[k]);
        assert(s[i + k] == a[k]);
    }
    assert(s.subrange(i, i + al) =~= a);
    assert forall|k: int| 0 <= k < bl implies s.subrange(i + al, i + al + bl)[k] == b[k] by {
        assert(s.subrange(i, i + al + bl)[al + k] == (a + b)[al + k]);
        assert(s[i + (al + k)] == b[k]);
        assert(s.subrange(i + al, i + al + bl)[k] == s[i + al + k]);
    }
    assert(s.subrange(i + al, i + al + bl) =~= b);
}

/// Parsing an encoded entry list inside a larger byte sequence yields the
/// entries back and stops right after them.
proof fn lemma_entry_list_rt(
    es: Seq<(Seq<char>, WireScalarV)>,
    idx: int,
    acc: Seq<(Seq<char>, WireScalarV)>,
    s: Seq<u8>,
    i: int,
)
    requires
        forall|k: int|
            0 <= k < es.len() ==> scalar_wf(WireScalarV::Str((#[trigger] es[k]).0)) && scalar_wf(
                es[k].1,
            ),
        0 <= idx <= es.len(),
        0 <= i,
        i + spec_encode_entries_from(es, idx).len() <= s.len(),
        s.subrange(i, i + spec_encode_entries_from(es, idx).len() as int)
            == spec_encode_entries_from(es, idx),
    ensures
        spec_parse_entry_list(s, i, (es.len() - idx) as nat, acc) == Some(
            (acc + es.subrange(idx, es.len() as int), i + spec_encode_entries_from(
                es,
                idx,
            ).len() as int),
        ),
    decreases es.len() - idx,
{
    if idx == es.len() {
        assert(acc + es.subrange(idx, idx) =~= acc);
    } else {
        let key_enc = spec_encode_scalar(WireScalarV::Str(es[idx].0));
        let val_enc = spec_encode_scalar(es[idx].1);
        let rest_enc = spec_encode_entries_from(es, idx + 1);
        let kl = key_enc.len() as int;
        let vl = val_enc.len() as int;
        let rl = rest_enc.len() as int;
        assert(spec_encode_entries_from(es, idx) == key_enc + val_enc + rest_enc);
        assert(key_enc + val_enc + rest_enc =~= key_enc + (val_enc + rest_enc));
        lemma_subrange_split(s, i, key_enc, val_enc + rest_enc);
        lemma_subrange_split(s, i + kl, val_enc, rest_enc);
        lemma_scalar_rt(WireScalarV::Str(es[idx].0), s, i);
        lemma_scalar_rt(es[idx].1, s, i + kl);
        lemma_entry_list_rt(es, idx + 1, acc.push((es[idx].0, es[idx].1)), s, i + kl + vl);
        assert(acc.push((es[idx].0, es[idx].1)) + es.subrange(idx + 1, es.len() as int) =~= acc
            + es.subrange(idx, es.len() as int));
    }
}

/// Parsing an encoded entry map inside a larger byte sequence yields the
/// entries back and stops right after the map.
pub proof fn lemma_entries_rt(es: Seq<(Seq<char>, WireScalarV)>, s: Seq<u8>, i: int)
    requires
        entries_wf(es),
        0 <= i,
        i + spec_encode_entry_map(es).len() <= s.len(),
        s.subrange(i, i + spec_encode_entry_map(es).len() as int) == spec_encode_entry_map(es),
    ensures
        spec_parse_entries(s, i) == Some((es, i + spec_encode_entry_map(es).len() as int)),
{
    let h = seq![(0x80 + es.len()) as u8];
    let body = spec_encode_entries_from(es, 0);
    lemma_subrange_split(s, i, h, body);
    assert(s[i] == h[0]) by {
        assert(s.subrange(i, i + 1)[0] == s[i]);
    };
    lemma_entry_list_rt(es, 0, Seq::empty(), s, i + 1);
    assert(Seq::empty() + es.subrange(0, es.len() as int) =~= es);
}

/// The spec-level view of parsed entry pairs.
pub open spec fn entry_pairs_view(v: Seq<(String, WireScalar)>) -> Seq<(Seq<char>, WireScalarV)> {
    v.map_values(|p: (String, WireScalar)| (p.0@, p.1@))
}

/// Parse an entry map at `i`, yielding the owned entries and the position
/// after the map.
#[verifier::loop_isolation(false)]
#[verifier::rlimit(100)]
pub fn parse_entries(s: &Vec<u8>, i: usize) -> (r: Option<(Vec<(String, WireScalar)>, usize)>)
    ensures
        match r {
            Some(p) => spec_parse_entries(s@, i as int) == Some(
                (entry_pairs_view(p.0@), p.1 as int),
            ) && p.1 <= s@.len(),
            None => spec_parse_entries(s@, i as int) is None,
        },
{
    if i >= s.len() {
        return None;
    }
    let b = s[i];
    let mut cnt: u64;
    let mut pos: usize;
    if 0x80 <= b && b <= 0x8f {
        cnt = (b - 0x80) as u64;
        pos = i + 1;
    } else if b == 0xde {
        if s.len() - i >= 3 {
            cnt = get_be16(s, i + 1) as u64;
            pos = i + 3;
        } else {
            return None;
        }
    } else if b == 0xdf {
        if s.len() - i >= 5 {
            cnt = get_be32(s, i + 1) as u64;
            pos = i + 5;
        } else {
            return None;
        }
    } else {
        return None;
    }
    let ghost cnt0 = cnt as nat;
    let ghost pos0 = pos as int;
    let mut out: Vec<(String, WireScalar)> = Vec::new();
    proof {
        assert(entry_pairs_view(out@) =~= Seq::<(Seq<char>, WireScalarV)>::empty());
    }
    while cnt > 0
        invariant
            pos <= s@.len(),
            spec_parse_entry_list(s@, pos0, cnt0, Seq::empty()) == spec_parse_entry_list(
                s@,
                pos as int,
                cnt as nat,
                entry_pairs_view(out@),
            ),
        decreases cnt,
    {
        let ghost pre_pos = pos as int;
        let ghost pre_cnt = cnt as nat;
        let ghost pre_view = entry_pairs_view(out@);
        let key = match decode_scalar(s, pos) {
            Some((WireScalar::Str(k), j)) => {
                pos = j;
                k
            },
            Some(_) => {
                return None;
            },
            None => {
                return None;
            },
        };
        match decode_scalar(s, pos) {
            Some((v, j)) => {
                out.push((key, v));
                pos = j;
                proof {
                    assert(entry_pairs_view(out@) =~= entry_pairs_view(out@.drop_last()).push(
                        (out@.last().0@, out@.last().1@),
                    ));
                }
            },
            None => {
                return None;
            },
        }
        cnt = cnt - 1;
        proof {
            assert(entry_pairs_view(out@) =~= pre_view.push(
                (out@.last().0@, out@.last().1@),
            ));
            assert(spec_parse_entry_list(s@, pre_pos, pre_cnt, pre_view)
                == spec_parse_entry_list(s@, pos as int, cnt as nat, entry_pairs_view(out@)));
        }
    }
    Some((out, pos))
}

/// Decode a blob body of `l` bytes at `j`.
fn decode_bin_body(s: &Vec<u8>, j: usize, l: usize) -> (r: Option<(WireScalar, usize)>)
    requires
        0 < j <= s@.len(),
    ensures
        match r {
            Some(p) => bin_body(s@, j as int, l as int) == Some((p.0@, p.1 as int)) && j <= p.1
                <= s@.len(),
            None => bin_body(s@, j as int, l as int) is None,
        },
{
    if l > s.len() - j {
        return None;
    }
    let bytes = copy_range(s, j, j + l);
    Some((WireScalar::Bin(bytes), j + l))
}

} // verus!
