//! Color values parsed from style text: hex forms, `rgb(..)` / `rgba(..)`
//! forms, and named colors.

use vstd::prelude::*;

verus! {

use crate::num::Num;
use crate::num::alpha_byte;
use crate::num::parse_decimal;
use crate::num::spec_alpha_byte;
use crate::num::spec_is_digit;
use crate::num::spec_parse_decimal;
use crate::strutil::spec_split_char;
use crate::strutil::spec_starts_with;
use crate::strutil::spec_strip_prefix_all;
use crate::strutil::spec_to_lower;
use crate::strutil::spec_trim;
use crate::strutil::spec_trim_end;
use crate::strutil::split_char;
use crate::strutil::starts_with;
use crate::strutil::str_eq_lower;
use crate::strutil::str_to_lower;
use crate::strutil::strip_prefix_all;
use crate::strutil::trim;
use crate::strutil::trim_end_char;

/// A parsed color value.
#[derive(Debug, Clone, PartialEq)]
pub enum ColorValue {
    /// An RGBA color, one byte per channel.
    Rgba { r: u8, g: u8, b: u8, a: u8 },
    /// A color name this parser does not resolve itself.
    Named(String),
}

/// Spec-level form of a color value.
pub ghost enum ColorSpec {
    /// An RGBA color, one byte per channel.
    Rgba { r: u8, g: u8, b: u8, a: u8 },
    /// An unresolved color name.
    Named(Seq<char>),
}

impl View for ColorValue {
    type V = ColorSpec;

    open spec fn view(&self) -> ColorSpec {
        match self {
            ColorValue::Rgba { r, g, b, a } => ColorSpec::Rgba { r: *r, g: *g, b: *b, a: *a },
            ColorValue::Named(s) => ColorSpec::Named(s@),
        }
    }
}

/// Whether `c` is a hexadecimal digit.
pub open spec fn spec_is_hex(c: char) -> bool {
    spec_is_digit(c) || (97 <= c as u32 <= 102) || (65 <= c as u32 <= 70)
}

/// The value of the hexadecimal digit `c`.
pub open spec fn spec_hex_val(c: char) -> nat {
    if spec_is_digit(c) {
        (c as u32 - 48) as nat
    } else if 97 <= c as u32 <= 102 {
        (c as u32 - 87) as nat
    } else if 65 <= c as u32 <= 70 {
        (c as u32 - 55) as nat
    } else {
        0
    }
}

/// The byte two hexadecimal digits stand for.
pub open spec fn spec_hex_byte(c1: char, c2: char) -> u8 {
    (spec_hex_val(c1) * 16 + spec_hex_val(c2)) as u8
}

/// The value of one hexadecimal digit.
pub fn hex_val(c: char) -> (r: Option<u8>)
    ensures
        match r {
            Some(v) => spec_is_hex(c) && v == spec_hex_val(c),
            None => !spec_is_hex(c),
        },
{
    let u = c as u32;
    if 48 <= u && u <= 57 {
        Some((u - 48) as u8)
    } else if 97 <= u && u <= 102 {
        Some((u - 87) as u8)
    } else if 65 <= u && u <= 70 {
        Some((u - 55) as u8)
    } else {
        None
    }
}

/// One byte of `0 ..= 255` read from the whole of `s`: digits with at most
/// one leading plus sign, as the standard byte parser accepts.
pub open spec fn spec_scan_u8(s: Seq<char>, i: int, acc: nat, seen: bool) -> Option<u8>
    decreases s.len() - i,
{
    if i < 0 || i > s.len() {
        None
    } else if i == s.len() {
        if seen {
            Some(acc as u8)
        } else {
            None
        }
    } else if spec_is_digit(s[i]) {
        let acc2 = acc * 10 + (s[i] as u32 - 48) as nat;
        if acc2 > 255 {
            None
        } else {
            spec_scan_u8(s, i + 1, acc2, true)
        }
    } else {
        None
    }
}

/// What `parse_u8` yields on `s`.
pub open spec fn spec_parse_u8(s: Seq<char>) -> Option<u8> {
    let start: int = if s.len() > 0 && s[0] == '+' {
        1
    } else {
        0
    };
    spec_scan_u8(s, start, 0, false)
}

/// Parse one byte of `0 ..= 255` out of the whole of `s`.
#[verifier::loop_isolation(false)]
pub fn parse_u8(s: &str) -> (r: Option<u8>)
    ensures
        r == spec_parse_u8(s@),
{
    let n = s.unicode_len();
    let mut i: usize = if n > 0 && s.get_char(0) == '+' {
        1
    } else {
        0
    };
    let ghost start = i as int;
    let mut acc: u16 = 0;
    let mut seen = false;
    loop
        invariant
            0 <= i <= n,
            n == s@.len(),
            acc <= 255,
            spec_scan_u8(s@, start, 0, false) == spec_scan_u8(s@, i as int, acc as nat, seen),
        decreases n - i,
    {
        if i == n {
            if seen {
                return Some(acc as u8);
            } else {
                return None;
            }
        }
        let c = s.get_char(i);
        let u = c as u32;
        if 48 <= u && u <= 57 {
            let acc2 = acc * 10 + (u - 48) as u16;
            if acc2 > 255 {
                return None;
            }
            acc = acc2;
            seen = true;
        } else {
            return None;
        }
        i = i + 1;
    }
}

/// All six (or eight) characters are hexadecimal digits.
pub open spec fn spec_all_hex(s: Seq<char>) -> bool {
    forall|k: int| 0 <= k < s.len() ==> spec_is_hex(#[trigger] s[k])
}

/// The inner text of an `rgb(..)` / `rgba(..)` form: the prefixes stripped
/// from the front, closing parentheses stripped from the back.
pub open spec fn spec_rgb_inner(t: Seq<char>) -> Seq<char> {
    spec_trim_end(spec_strip_prefix_all(spec_strip_prefix_all(t, "rgba("@), "rgb("@), Some(')'))
}

/// The color the channel pieces of an `rgb(..)` / `rgba(..)` form name.
pub open spec fn spec_parse_rgb_parts(parts: Seq<Seq<char>>) -> Option<ColorSpec> {
    if parts.len() < 3 {
        None
    } else {
        let r = spec_parse_u8(spec_trim(parts[0], None));
        let g = spec_parse_u8(spec_trim(parts[1], None));
        let b = spec_parse_u8(spec_trim(parts[2], None));
        if r is None || g is None || b is None {
            None
        } else if parts.len() >= 4 {
            match spec_parse_decimal(spec_trim(parts[3], None)) {
                Some(af) => Some(
                    ColorSpec::Rgba {
                        r: r->Some_0,
                        g: g->Some_0,
                        b: b->Some_0,
                        a: spec_alpha_byte(af),
                    },
                ),
                None => None,
            }
        } else {
            Some(ColorSpec::Rgba { r: r->Some_0, g: g->Some_0, b: b->Some_0, a: 255 })
        }
    }
}

/// The color a lowercased name stands for, or the name itself.
pub open spec fn spec_named_color(low: Seq<char>) -> ColorSpec {
    if low == "white"@ {
        ColorSpec::Rgba { r: 255, g: 255, b: 255, a: 255 }
    } else if low == "black"@ {
        ColorSpec::Rgba { r: 0, g: 0, b: 0, a: 255 }
    } else if low == "red"@ {
        ColorSpec::Rgba { r: 255, g: 0, b: 0, a: 255 }
    } else if low == "green"@ {
        ColorSpec::Rgba { r: 0, g: 128, b: 0, a: 255 }
    } else if low == "blue"@ {
        ColorSpec::Rgba { r: 0, g: 0, b: 255, a: 255 }
    } else if low == "yellow"@ {
        ColorSpec::Rgba { r: 255, g: 255, b: 0, a: 255 }
    } else if low == "cyan"@ {
        ColorSpec::Rgba { r: 0, g: 255, b: 255, a: 255 }
    } else if low == "magenta"@ {
        ColorSpec::Rgba { r: 255, g: 0, b: 255, a: 255 }
    } else if low == "orange"@ {
        ColorSpec::Rgba { r: 255, g: 165, b: 0, a: 255 }
    } else if low == "purple"@ {
        ColorSpec::Rgba { r: 128, g: 0, b: 128, a: 255 }
    } else if low == "gray"@ || low == "grey"@ {
        ColorSpec::Rgba { r: 128, g: 128, b: 128, a: 255 }
    } else if low == "transparent"@ {
        ColorSpec::Rgba { r: 0, g: 0, b: 0, a: 0 }
    } else {
        ColorSpec::Named(low)
    }
}

/// The color the text `s` names: `#RRGGBB` / `#RRGGBBAA` hex forms,
/// `rgb(r,g,b)` / `rgba(r,g,b,a)` forms with byte channels and a fractional
/// alpha, a known color name in any case, or the lowercased name itself.
pub open spec fn spec_parse_color(s: Seq<char>) -> Option<ColorSpec> {
    let t = spec_trim(s, None);
    if t.len() > 0 && t[0] == '#' {
        let hex = t.subrange(1, t.len() as int);
        if hex.len() == 6 {
            if spec_all_hex(hex) {
                Some(
                    ColorSpec::Rgba {
                        r: spec_hex_byte(hex[0], hex[1]),
                        g: spec_hex_byte(hex[2], hex[3]),
                        b: spec_hex_byte(hex[4], hex[5]),
                        a: 255,
                    },
                )
            } else {
                None
            }
        } else if hex.len() == 8 {
            if spec_all_hex(hex) {
                Some(
                    ColorSpec::Rgba {
                        r: spec_hex_byte(hex[0], hex[1]),
                        g: spec_hex_byte(hex[2], hex[3]),
                        b: spec_hex_byte(hex[4], hex[5]),
                        a: spec_hex_byte(hex[6], hex[7]),
                    },
                )
            } else {
                None
            }
        } else {
            None
        }
    } else if spec_starts_with(t, "rgb("@) || spec_starts_with(t, "rgba("@) {
        spec_parse_rgb_parts(spec_split_char(spec_rgb_inner(t), ','))
    } else {
        Some(spec_named_color(spec_to_lower(t)))
    }
}

impl ColorValue {
    /// Parse a color such as `#RRGGBB`, `#RRGGBBAA`, `rgb(r,g,b)`,
    /// `rgba(r,g,b,a)`, or a color name.
    #[verifier::loop_isolation(false)]
    #[verifier::rlimit(100)]
    pub fn parse(s: &str) -> (r: Option<ColorValue>)
        ensures
            match r {
                Some(c) => spec_parse_color(s@) == Some(c@),
                None => spec_parse_color(s@) is None,
            },
    {
        let t = trim(s);
        let n = t.unicode_len();
        if n > 0 && t.get_char(0) == '#' {
            let hex = t.substring_char(1, n);
            let m = n - 1;
            if m != 6 && m != 8 {
                return None;
            }
            let mut bytes: [u8; 4] = [0, 0, 0, 255];
            let mut k: usize = 0;
            while k < m / 2
                invariant
                    m == 6 || m == 8,
                    m == hex@.len(),
                    0 <= k <= m / 2,
                    forall|j: int| 0 <= j < 2 * k ==> spec_is_hex(#[trigger] hex@[j]),
                    forall|j: int|
                        0 <= j < k ==> bytes@[j] == spec_hex_byte(hex@[2 * j], hex@[2 * j + 1]),
                    m == 6 ==> bytes@[3] == 255,
                decreases m / 2 - k,
            {
                let h1 = match hex_val(hex.get_char(2 * k)) {
                    Some(v) => v,
                    None => {
                        return None;
                    },
                };
                let h2 = match hex_val(hex.get_char(2 * k + 1)) {
                    Some(v) => v,
                    None => {
                        return None;
                    },
                };
                bytes[k] = h1 * 16 + h2;
                k += 1;
            }
            proof {
                assert(spec_all_hex(hex@));
            }
            return Some(
                ColorValue::Rgba { r: bytes[0], g: bytes[1], b: bytes[2], a: bytes[3] },
            );
        }
        if starts_with(t, "rgb(") || starts_with(t, "rgba(") {
            proof {
                reveal_strlit("rgb(");
                reveal_strlit("rgba(");
            }
            let inner = trim_end_char(strip_prefix_all(strip_prefix_all(t, "rgba("), "rgb("), ')');
            let parts = split_char(inner, ',');
            if parts.len() < 3 {
                return None;
            }
            let rv = match parse_u8(trim(parts[0].as_str())) {
                Some(v) => v,
                None => {
                    return None;
                },
            };
            let gv = match parse_u8(trim(parts[1].as_str())) {
                Some(v) => v,
                None => {
                    return None;
                },
            };
            let bv = match parse_u8(trim(parts[2].as_str())) {
                Some(v) => v,
                None => {
                    return None;
                },
            };
            let av: u8 = if parts.len() >= 4 {
                match parse_decimal(trim(parts[3].as_str())) {
                    Some(af) => alpha_byte(af),
                    None => {
                        return None;
                    },
                }
            } else {
                255
            };
            return Some(ColorValue::Rgba { r: rv, g: gv, b: bv, a: av });
        }
        if str_eq_lower(t, "white") {
            Some(ColorValue::Rgba { r: 255, g: 255, b: 255, a: 255 })
        } else if str_eq_lower(t, "black") {
            Some(ColorValue::Rgba { r: 0, g: 0, b: 0, a: 255 })
        } else if str_eq_lower(t, "red") {
            Some(ColorValue::Rgba { r: 255, g: 0, b: 0, a: 255 })
        } else if str_eq_lower(t, "green") {
            Some(ColorValue::Rgba { r: 0, g: 128, b: 0, a: 255 })
        } else if str_eq_lower(t, "blue") {
            Some(ColorValue::Rgba { r: 0, g: 0, b: 255, a: 255 })
        } else if str_eq_lower(t, "yellow") {
            Some(ColorValue::Rgba { r: 255, g: 255, b: 0, a: 255 })
        } else if str_eq_lower(t, "cyan") {
            Some(ColorValue::Rgba { r: 0, g: 255, b: 255, a: 255 })
        } else if str_eq_lower(t, "magenta") {
            Some(ColorValue::Rgba { r: 255, g: 0, b: 255, a: 255 })
        } else if str_eq_lower(t, "orange") {
            Some(ColorValue::Rgba { r: 255, g: 165, b: 0, a: 255 })
        } else if str_eq_lower(t, "purple") {
            Some(ColorValue::Rgba { r: 128, g: 0, b: 128, a: 255 })
        } else if str_eq_lower(t, "gray") || str_eq_lower(t, "grey") {
            Some(ColorValue::Rgba { r: 128, g: 128, b: 128, a: 255 })
        } else if str_eq_lower(t, "transparent") {
            Some(ColorValue::Rgba { r: 0, g: 0, b: 0, a: 0 })
        } else {
            Some(ColorValue::Named(str_to_lower(t)))
        }
    }

    /// A field-wise copy whose view equals this value's view.
    pub fn duplicate(&self) -> (r: ColorValue)
        ensures
            r@ == self@,
    {
        match self {
            ColorValue::Rgba { r, g, b, a } => ColorValue::Rgba { r: *r, g: *g, b: *b, a: *a },
            ColorValue::Named(s) => ColorValue::Named(s.clone()),
        }
    }
}

} // verus!
