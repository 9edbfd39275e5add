//! Plain decimal numbers: sign, integer mantissa and decimal scale.
//!
//! Style payloads and widget parameters carry numbers as text; this module
//! parses them exactly, without any floating-point representation.

use vstd::prelude::*;

verus! {

use vstd::string::StrSliceExecFns;

/// Largest mantissa `parse_decimal` accepts.
pub const MAX_MANT: u64 = 999_999_999_999_999_999;

/// Largest scale (count of fraction digits) `parse_decimal` accepts.
pub const MAX_SCALE: u64 = 18;

/// A decimal number: `(-1 if neg) * mant / 10^scale`.
#[derive(Clone, Copy, PartialEq, Eq, Structural, Debug)]
pub struct Num {
    /// Whether the number is negative.
    pub neg: bool,
    /// All digits, fraction digits included, as one integer.
    pub mant: u64,
    /// How many of the mantissa's digits stand after the decimal point.
    pub scale: u64,
}

impl Num {
    /// The integer `n`, as a decimal.
    pub fn from_int(n: u64) -> (r: Num)
        ensures
            r == (Num { neg: false, mant: n, scale: 0u64 }),
    {
        Num { neg: false, mant: n, scale: 0 }
    }
}

/// Whether `c` is a decimal digit.
pub open spec fn spec_is_digit(c: char) -> bool {
    48 <= c as u32 <= 57
}

/// The value of the digit `c`.
pub open spec fn spec_digit_val(c: char) -> nat {
    (c as u32 - 48) as nat
}

/// `10^n`.
pub open spec fn spec_pow10(n: nat) -> nat
    decreases n,
{
    if n == 0 {
        1
    } else {
        10 * spec_pow10((n - 1) as nat)
    }
}

/// `10^n` for `n` up to `MAX_SCALE`.
pub fn pow10(n: u64) -> (r: u64)
    requires
        n <= MAX_SCALE,
    ensures
        r == spec_pow10(n as nat),
        r >= 1,
{
    let mut r: u64 = 1;
    let mut i: u64 = 0;
    proof {
        lemma_pow10_bound(n as nat);
    }
    while i < n
        invariant
            i <= n <= MAX_SCALE,
            r == spec_pow10(i as nat),
            spec_pow10(n as nat) <= 1_000_000_000_000_000_000,
        decreases n - i,
    {
        proof {
            lemma_pow10_mono(i as nat + 1, n as nat);
        }
        r = r * 10;
        i = i + 1;
    }
    proof {
        lemma_pow10_mono(n as nat, n as nat);
    }
    r
}

/// `10^a <= 10^b` when `a <= b`.
proof fn lemma_pow10_mono(a: nat, b: nat)
    requires
        a <= b,
    ensures
        spec_pow10(a) <= spec_pow10(b),
        spec_pow10(a) >= 1,
    decreases b,
{
    if a == b {
        if a > 0 {
            lemma_pow10_mono((a - 1) as nat, (a - 1) as nat);
        }
    } else {
        lemma_pow10_mono(a, (b - 1) as nat);
    }
}

/// `10^n` stays within `u64` bounds for `n` up to `MAX_SCALE`.
proof fn lemma_pow10_bound(n: nat)
    requires
        n <= 18,
    ensures
        spec_pow10(n) <= 1_000_000_000_000_000_000,
{
    reveal_with_fuel(spec_pow10, 19);
    lemma_pow10_mono(n, 18);
    assert(spec_pow10(18) == 1_000_000_000_000_000_000) by {
        reveal_with_fuel(spec_pow10, 19);
    }
}

/// Largest exponent magnitude `parse_decimal` reads before rejecting.
pub const MAX_EXP: u64 = 9_999;

/// The mantissa multiplied up by `shift` powers of ten, or nothing when it
/// would leave the mantissa bound.
pub open spec fn spec_shift_mant(mant: nat, shift: nat) -> Option<nat>
    decreases shift,
{
    if shift == 0 {
        Some(mant)
    } else if mant * 10 > MAX_MANT {
        None
    } else {
        spec_shift_mant(mant * 10, (shift - 1) as nat)
    }
}

/// An exponent folded into mantissa and scale: a negative exponent deepens
/// the scale, a positive one consumes it and then multiplies the mantissa,
/// rejected when either leaves its bound.
pub open spec fn spec_apply_exp(mant: nat, scale: nat, eneg: bool, e: nat) -> Option<(nat, nat)> {
    if eneg {
        if scale + e > MAX_SCALE {
            None
        } else {
            Some((mant, scale + e))
        }
    } else if e >= scale {
        match spec_shift_mant(mant, (e - scale) as nat) {
            Some(m) => Some((m, 0)),
            None => None,
        }
    } else {
        Some((mant, (scale - e) as nat))
    }
}

/// Scan the digits of an exponent, which must run to the end of the text.
pub open spec fn spec_scan_exp(s: Seq<char>, i: int, eacc: nat, eseen: bool) -> Option<nat>
    decreases s.len() - i,
{
    if i < 0 || i > s.len() {
        None
    } else if i == s.len() {
        if eseen {
            Some(eacc)
        } else {
            None
        }
    } else if spec_is_digit(s[i]) {
        let e2 = eacc * 10 + spec_digit_val(s[i]);
        if e2 > MAX_EXP {
            None
        } else {
            spec_scan_exp(s, i + 1, e2, true)
        }
    } else {
        None
    }
}

/// One step of decimal scanning: position `i`, digits read so far `acc`,
/// fraction digits counted `scale`, whether any digit was seen, and whether
/// the point was passed. Yields mantissa and scale when the text is a plain
/// decimal within bounds.
pub open spec fn spec_scan_decimal(
    s: Seq<char>,
    i: int,
    acc: nat,
    scale: nat,
    seen: bool,
    in_frac: bool,
) -> Option<(nat, nat)>
    decreases s.len() - i,
{
    if i < 0 || i > s.len() {
        None
    } else if i == s.len() {
        if seen {
            Some((acc, scale))
        } else {
            None
        }
    } else if spec_is_digit(s[i]) {
        let acc2 = acc * 10 + spec_digit_val(s[i]);
        if acc2 > MAX_MANT {
            None
        } else if in_frac && scale + 1 > MAX_SCALE {
            None
        } else {
            spec_scan_decimal(
                s,
                i + 1,
                acc2,
                if in_frac {
                    scale + 1
                } else {
                    scale
                },
                true,
                in_frac,
            )
        }
    } else if s[i] == '.' && !in_frac {
        spec_scan_decimal(s, i + 1, acc, scale, seen, true)
    } else if (s[i] == 'e' || s[i] == 'E') && seen {
        let eneg = i + 1 < s.len() && s[i + 1] == '-';
        let j: int = if i + 1 < s.len() && (s[i + 1] == '-' || s[i + 1] == '+') {
            i + 2
        } else {
            i + 1
        };
        match spec_scan_exp(s, j, 0, false) {
            Some(e) => spec_apply_exp(acc, scale, eneg, e),
            None => None,
        }
    } else {
        None
    }
}

/// What `parse_decimal` yields on `s`: an optional sign, then digits with
/// at most one decimal point and at least one digit, then an optional
/// signed exponent, within mantissa, scale and exponent bounds. Anything
/// else is rejected.
pub open spec fn spec_parse_decimal(s: Seq<char>) -> Option<Num> {
    let neg = s.len() > 0 && s[0] == '-';
    let start: int = if s.len() > 0 && (s[0] == '-' || s[0] == '+') {
        1
    } else {
        0
    };
    match spec_scan_decimal(s, start, 0, 0, false, false) {
        Some((m, sc)) => Some(Num { neg, mant: m as u64, scale: sc as u64 }),
        None => None,
    }
}

/// Whether `c` is a decimal digit.
pub fn is_digit(c: char) -> (r: bool)
    ensures
        r == spec_is_digit(c),
{
    let u = c as u32;
    48 <= u && u <= 57
}

/// Parse a decimal number, exponent form included, out of the whole of
/// `s`.
#[verifier::loop_isolation(false)]
pub fn parse_decimal(s: &str) -> (r: Option<Num>)
    ensures
        r == spec_parse_decimal(s@),
        r matches Some(v) ==> v.mant <= MAX_MANT && v.scale <= MAX_SCALE,
{
    let n = s.unicode_len();
    let neg = n > 0 && s.get_char(0) == '-';
    let mut i: usize = if n > 0 && (s.get_char(0) == '-' || s.get_char(0) == '+') {
        1
    } else {
        0
    };
    let ghost start = i as int;
    let mut acc: u64 = 0;
    let mut scale: u64 = 0;
    let mut seen = false;
    let mut in_frac = false;
    loop
        invariant
            0 <= i <= n,
            n == s@.len(),
            acc <= MAX_MANT,
            scale <= MAX_SCALE,
            spec_scan_decimal(s@, start, 0, 0, false, false) == spec_scan_decimal(
                s@,
                i as int,
                acc as nat,
                scale as nat,
                seen,
                in_frac,
            ),
        decreases n - i,
    {
        proof {
            reveal_with_fuel(spec_scan_decimal, 2);
        }
        if i == n {
            if seen {
                return Some(Num { neg, mant: acc, scale });
            } else {
                return None;
            }
        }
        let c = s.get_char(i);
        if is_digit(c) {
            let d = (c as u32 - 48) as u64;
            if acc > (MAX_MANT - d) / 10 {
                proof {
                    assert(acc * 10 + d > MAX_MANT) by (nonlinear_arith)
                        requires
                            acc > (MAX_MANT - d) / 10,
                            d <= 9,
                            MAX_MANT == 999_999_999_999_999_999u64,
                    ;
                }
                return None;
            }
            proof {
                assert(acc * 10 + d <= MAX_MANT) by (nonlinear_arith)
                    requires
                        acc <= (MAX_MANT - d) / 10,
                        d <= 9,
                        MAX_MANT == 999_999_999_999_999_999u64,
                ;
            }
            acc = acc * 10 + d;
            if in_frac {
                if scale + 1 > MAX_SCALE {
                    return None;
                }
                scale = scale + 1;
            }
            seen = true;
        } else if c == '.' && !in_frac {
            in_frac = true;
        } else if (c == 'e' || c == 'E') && seen {
            let eneg = i + 1 < n && s.get_char(i + 1) == '-';
            let mut j: usize = if i + 1 < n && (s.get_char(i + 1) == '-' || s.get_char(i + 1)
                == '+') {
                i + 2
            } else {
                i + 1
            };
            let ghost estart = j as int;
            let mut eacc: u64 = 0;
            let mut eseen = false;
            loop
                invariant
                    0 <= j <= n,
                    eacc <= MAX_EXP,
                    spec_scan_exp(s@, estart, 0, false) == spec_scan_exp(
                        s@,
                        j as int,
                        eacc as nat,
                        eseen,
                    ),
                decreases n - j,
            {
                if j == n {
                    if !eseen {
                        return None;
                    }
                    break;
                }
                let c2 = s.get_char(j);
                let u = c2 as u32;
                if 48 <= u && u <= 57 {
                    let e2 = eacc * 10 + (u - 48) as u64;
                    if e2 > MAX_EXP {
                        return None;
                    }
                    eacc = e2;
                    eseen = true;
                } else {
                    return None;
                }
                j = j + 1;
            }
            if eneg {
                if scale + eacc > MAX_SCALE {
                    return None;
                }
                return Some(Num { neg, mant: acc, scale: scale + eacc });
            } else if eacc >= scale {
                let mut shift = eacc - scale;
                let mut m = acc;
                loop
                    invariant
                        m <= MAX_MANT,
                        spec_shift_mant(acc as nat, (eacc - scale) as nat) == spec_shift_mant(
                            m as nat,
                            shift as nat,
                        ),
                    decreases shift,
                {
                    if shift == 0 {
                        break;
                    }
                    if m > MAX_MANT / 10 {
                        proof {
                            assert(m * 10 > MAX_MANT) by (nonlinear_arith)
                                requires
                                    m > MAX_MANT / 10,
                                    MAX_MANT == 999_999_999_999_999_999u64,
                            ;
                        }
                        return None;
                    }
                    proof {
                        assert(m * 10 <= MAX_MANT) by (nonlinear_arith)
                            requires
                                m <= MAX_MANT / 10,
                                MAX_MANT == 999_999_999_999_999_999u64,
                        ;
                    }
                    m = m * 10;
                    shift = shift - 1;
                }
                return Some(Num { neg, mant: m, scale: 0 });
            } else {
                return Some(Num { neg, mant: acc, scale: scale - eacc });
            }
        } else {
            return None;
        }
        i = i + 1;
    }
}

/// The byte an alpha fraction maps to: `mant * 255 / 10^scale`, clamped to
/// `0 ..= 255`, negative values giving zero.
pub open spec fn spec_alpha_byte(v: Num) -> u8 {
    if v.neg {
        0
    } else {
        let q = (v.mant * 255) as nat / spec_pow10(v.scale as nat);
        if q > 255 {
            255
        } else {
            q as u8
        }
    }
}

/// Scale an alpha fraction (such as 0.5) to a byte in `0 ..= 255`.
pub fn alpha_byte(v: Num) -> (r: u8)
    requires
        v.mant <= MAX_MANT,
        v.scale <= MAX_SCALE,
    ensures
        r == spec_alpha_byte(v),
{
    if v.neg {
        return 0;
    }
    let p = pow10(v.scale);
    let q: u128 = (v.mant as u128) * 255 / (p as u128);
    proof {
        assert((v.mant as u128) * 255 == (v.mant * 255) as nat) by (nonlinear_arith)
            requires
                v.mant <= MAX_MANT,
        ;
    }
    if q > 255 {
        255
    } else {
        q as u8
    }
}

} // verus!
