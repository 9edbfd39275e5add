//! The structured style payload and the flat key/value scanner that reads
//! it from style text.

use vstd::prelude::*;

verus! {

use crate::color::ColorSpec;
use crate::color::ColorValue;
use crate::color::spec_parse_color;
use crate::num::Num;
use crate::num::parse_decimal;
use crate::num::spec_parse_decimal;
use crate::strutil::spec_find_char;
use crate::strutil::spec_split_char;
use crate::strutil::spec_to_lower;
use crate::strutil::spec_trim;
use crate::strutil::spec_trim_end;
use crate::strutil::spec_trim_start;
use crate::strutil::append_char_of;
use crate::strutil::lemma_find_char_at;
use crate::strutil::split_char;
use crate::strutil::str_eq;
use crate::strutil::str_eq_lower;
use crate::strutil::string_of_range;
use crate::strutil::trim;
use crate::strutil::trim_end_char;
use crate::strutil::trim_quotes;
use crate::strutil::trim_start_char;
use vstd::string::StrSliceExecFns;

/// Slant of a font.
#[derive(Clone, Copy, PartialEq, Eq, Structural, Debug)]
pub enum FontStyleValue {
    /// Italic text.
    Italic,
    /// Upright text.
    Normal,
}

/// Horizontal alignment of text.
#[derive(Clone, Copy, PartialEq, Eq, Structural, Debug)]
pub enum TextAlignValue {
    /// Aligned to the start edge.
    Start,
    /// Centered.
    Center,
    /// Aligned to the end edge.
    End,
    /// Justified.
    Justify,
}

/// Main-axis direction of a flex container.
#[derive(Clone, Copy, PartialEq, Eq, Structural, Debug)]
pub enum FlexDirection {
    /// Children laid out in a row.
    Row,
    /// Children laid out in a column.
    Column,
}

/// Cross-axis alignment of a flex container.
#[derive(Clone, Copy, PartialEq, Eq, Structural, Debug)]
pub enum CrossAlign {
    /// Packed at the start.
    Start,
    /// Centered.
    Center,
    /// Packed at the end.
    End,
    /// Stretched to fill.
    Fill,
    /// Aligned on the text baseline.
    Baseline,
}

/// Main-axis alignment of a flex container.
#[derive(Clone, Copy, PartialEq, Eq, Structural, Debug)]
pub enum MainAlign {
    /// Packed at the start.
    Start,
    /// Centered.
    Center,
    /// Packed at the end.
    End,
    /// Even gaps between children.
    SpaceBetween,
    /// Even space around children.
    SpaceAround,
    /// Even space between and around children.
    SpaceEvenly,
}

/// Padding around a widget's content.
#[derive(Clone, Copy, PartialEq, Eq, Structural, Debug)]
pub enum PaddingValue {
    /// One length on all four sides.
    Uniform(Num),
    /// One length per side.
    Sides {
        /// Top padding.
        top: Num,
        /// Right padding.
        right: Num,
        /// Bottom padding.
        bottom: Num,
        /// Left padding.
        left: Num,
    },
}

/// The structured style payload: every field optional, absent fields left
/// untouched by the widget the style is applied to.
#[derive(Debug, Clone)]
pub struct BoxStyle {
    /// Font size.
    pub font_size: Option<Num>,
    /// Font weight (100 through 900).
    pub font_weight: Option<Num>,
    /// Font slant.
    pub font_style: Option<FontStyleValue>,
    /// Font family name.
    pub font_family: Option<String>,
    /// Text color.
    pub color: Option<ColorValue>,
    /// Letter spacing.
    pub letter_spacing: Option<Num>,
    /// Line height.
    pub line_height: Option<Num>,
    /// Word spacing.
    pub word_spacing: Option<Num>,
    /// Underline decoration.
    pub underline: Option<bool>,
    /// Strikethrough decoration.
    pub strikethrough: Option<bool>,
    /// Text alignment.
    pub text_align: Option<TextAlignValue>,
    /// Background color.
    pub background: Option<ColorValue>,
    /// Border color.
    pub border_color: Option<ColorValue>,
    /// Border width.
    pub border_width: Option<Num>,
    /// Corner radius.
    pub corner_radius: Option<Num>,
    /// Padding around the content.
    pub padding: Option<PaddingValue>,
    /// Fixed width.
    pub width: Option<Num>,
    /// Fixed height.
    pub height: Option<Num>,
    /// Flex grow factor when laid out in a flex parent.
    pub flex: Option<Num>,
    /// Main-axis direction of a flex container.
    pub direction: Option<FlexDirection>,
    /// Cross-axis alignment of a flex container.
    pub cross_axis_alignment: Option<CrossAlign>,
    /// Main-axis alignment of a flex container.
    pub main_axis_alignment: Option<MainAlign>,
    /// Gap between a flex container's children.
    pub gap: Option<Num>,
    /// Whether a flex container fills its main axis.
    pub must_fill_main_axis: Option<bool>,
}

/// Spec-level form of a style payload.
pub ghost struct BoxStyleV {
    /// Font size.
    pub font_size: Option<Num>,
    /// Font weight.
    pub font_weight: Option<Num>,
    /// Font slant.
    pub font_style: Option<FontStyleValue>,
    /// Font family name.
    pub font_family: Option<Seq<char>>,
    /// Text color.
    pub color: Option<ColorSpec>,
    /// Letter spacing.
    pub letter_spacing: Option<Num>,
    /// Line height.
    pub line_height: Option<Num>,
    /// Word spacing.
    pub word_spacing: Option<Num>,
    /// Underline decoration.
    pub underline: Option<bool>,
    /// Strikethrough decoration.
    pub strikethrough: Option<bool>,
    /// Text alignment.
    pub text_align: Option<TextAlignValue>,
    /// Background color.
    pub background: Option<ColorSpec>,
    /// Border color.
    pub border_color: Option<ColorSpec>,
    /// Border width.
    pub border_width: Option<Num>,
    /// Corner radius.
    pub corner_radius: Option<Num>,
    /// Padding around the content.
    pub padding: Option<PaddingValue>,
    /// Fixed width.
    pub width: Option<Num>,
    /// Fixed height.
    pub height: Option<Num>,
    /// Flex grow factor.
    pub flex: Option<Num>,
    /// Main-axis direction.
    pub direction: Option<FlexDirection>,
    /// Cross-axis alignment.
    pub cross_axis_alignment: Option<CrossAlign>,
    /// Main-axis alignment.
    pub main_axis_alignment: Option<MainAlign>,
    /// Gap between children.
    pub gap: Option<Num>,
    /// Whether the main axis is filled.
    pub must_fill_main_axis: Option<bool>,
}

/// The view of an optional color.
pub open spec fn opt_color_view(o: Option<ColorValue>) -> Option<ColorSpec> {
    match o {
        Some(c) => Some(c@),
        None => None,
    }
}

impl View for BoxStyle {
    type V = BoxStyleV;

    open spec fn view(&self) -> BoxStyleV {
        BoxStyleV {
            font_size: self.font_size,
            font_weight: self.font_weight,
            font_style: self.font_style,
            font_family: match self.font_family {
                Some(s) => Some(s@),
                None => None,
            },
            color: opt_color_view(self.color),
            letter_spacing: self.letter_spacing,
            line_height: self.line_height,
            word_spacing: self.word_spacing,
            underline: self.underline,
            strikethrough: self.strikethrough,
            text_align: self.text_align,
            background: opt_color_view(self.background),
            border_color: opt_color_view(self.border_color),
            border_width: self.border_width,
            corner_radius: self.corner_radius,
            padding: self.padding,
            width: self.width,
            height: self.height,
            flex: self.flex,
            direction: self.direction,
            cross_axis_alignment: self.cross_axis_alignment,
            main_axis_alignment: self.main_axis_alignment,
            gap: self.gap,
            must_fill_main_axis: self.must_fill_main_axis,
        }
    }
}

/// The style with no field set.
pub open spec fn spec_empty_style() -> BoxStyleV {
    BoxStyleV {
        font_size: None,
        font_weight: None,
        font_style: None,
        font_family: None,
        color: None,
        letter_spacing: None,
        line_height: None,
        word_spacing: None,
        underline: None,
        strikethrough: None,
        text_align: None,
        background: None,
        border_color: None,
        border_width: None,
        corner_radius: None,
        padding: None,
        width: None,
        height: None,
        flex: None,
        direction: None,
        cross_axis_alignment: None,
        main_axis_alignment: None,
        gap: None,
        must_fill_main_axis: None,
    }
}

impl Default for BoxStyle {
    /// The style with no field set.
    fn default() -> (r: BoxStyle)
        ensures
            r@ == spec_empty_style(),
    {
        BoxStyle {
            font_size: None,
            font_weight: None,
            font_style: None,
            font_family: None,
            color: None,
            letter_spacing: None,
            line_height: None,
            word_spacing: None,
            underline: None,
            strikethrough: None,
            text_align: None,
            background: None,
            border_color: None,
            border_width: None,
            corner_radius: None,
            padding: None,
            width: None,
            height: None,
            flex: None,
            direction: None,
            cross_axis_alignment: None,
            main_axis_alignment: None,
            gap: None,
            must_fill_main_axis: None,
        }
    }
}

impl BoxStyle {
    /// A field-wise copy whose view equals this style's view.
    pub fn duplicate(&self) -> (r: BoxStyle)
        ensures
            r@ == self@,
    {
        BoxStyle {
            font_size: self.font_size,
            font_weight: self.font_weight,
            font_style: self.font_style,
            font_family: match &self.font_family {
                Some(s) => Some(s.clone()),
                None => None,
            },
            color: match &self.color {
                Some(c) => Some(c.duplicate()),
                None => None,
            },
            letter_spacing: self.letter_spacing,
            line_height: self.line_height,
            word_spacing: self.word_spacing,
            underline: self.underline,
            strikethrough: self.strikethrough,
            text_align: self.text_align,
            background: match &self.background {
                Some(c) => Some(c.duplicate()),
                None => None,
            },
            border_color: match &self.border_color {
                Some(c) => Some(c.duplicate()),
                None => None,
            },
            border_width: self.border_width,
            corner_radius: self.corner_radius,
            padding: self.padding,
            width: self.width,
            height: self.height,
            flex: self.flex,
            direction: self.direction,
            cross_axis_alignment: self.cross_axis_alignment,
            main_axis_alignment: self.main_axis_alignment,
            gap: self.gap,
            must_fill_main_axis: self.must_fill_main_axis,
        }
    }
}

/// The characters of `s[i .. end]` with `\"` and `\\` escapes collapsed.
pub open spec fn spec_unescape(s: Seq<char>, i: int, end: int) -> Seq<char>
    decreases end - i,
{
    if !(0 <= i < end <= s.len()) {
        Seq::empty()
    } else if s[i] == '\\' && i + 1 < end && (s[i + 1] == '"' || s[i + 1] == '\\') {
        seq![s[i + 1]] + spec_unescape(s, i + 2, end)
    } else {
        seq![s[i]] + spec_unescape(s, i + 1, end)
    }
}

/// What `unquote` yields: the text trimmed; when it stands in double
/// quotes, the quotes dropped and the `\"` and `\\` escapes collapsed.
pub open spec fn spec_unquote(s: Seq<char>) -> Seq<char> {
    let t = spec_trim(s, None);
    if t.len() >= 2 && t[0] == '"' && t[t.len() - 1] == '"' {
        spec_unescape(t, 1, t.len() - 1)
    } else {
        t
    }
}

/// Unquote a quoted value, collapsing its escapes.
#[verifier::loop_isolation(false)]
pub fn unquote(s: &str) -> (r: String)
    ensures
        r@ == spec_unquote(s@),
{
    let t = trim(s);
    let n = t.unicode_len();
    if !(n >= 2 && t.get_char(0) == '"' && t.get_char(n - 1) == '"') {
        return t.to_owned();
    }
    let end = n - 1;
    let mut acc = String::new();
    let mut i: usize = 1;
    while i < end
        invariant
            1 <= i <= end,
            end == n - 1,
            n == t@.len(),
            n >= 2,
            spec_unescape(t@, 1, end as int) == acc@ + spec_unescape(t@, i as int, end as int),
        decreases end - i,
    {
        let c = t.get_char(i);
        if c == '\\' && i + 1 < end {
            let c2 = t.get_char(i + 1);
            if c2 == '"' || c2 == '\\' {
                append_char_of(&mut acc, t, i + 1);
                i += 2;
            } else {
                append_char_of(&mut acc, t, i);
                i += 1;
            }
        } else {
            append_char_of(&mut acc, t, i);
            i += 1;
        }
    }
    acc
}

/// Whether `c` occurs in `s`.
#[verifier::loop_isolation(false)]
pub fn contains_char(s: &str, c: char) -> (r: bool)
    ensures
        r == (spec_find_char(s@, c) is Some),
{
    let n = s.unicode_len();
    let mut i: usize = 0;
    while i < n
        invariant
            0 <= i <= n,
            forall|k: int| 0 <= k < i ==> s@[k] != c,
        decreases n - i,
    {
        if s.get_char(i) == c {
            proof {
                lemma_find_char_at(s@, c, i as int);
            }
            return true;
        }
        i += 1;
    }
    proof {
        lemma_find_char_at(s@, c, n as int);
    }
    false
}

/// What `parse_json_kv` yields: the text before the first colon as the key
/// (trimmed, unquoted, trimmed again), the text after it as the raw value.
pub open spec fn spec_parse_json_kv(s: Seq<char>) -> Option<(Seq<char>, Seq<char>)> {
    match spec_find_char(s, ':') {
        None => None,
        Some(p) => {
            if 0 <= p < s.len() {
                Some(
                    (
                        spec_trim(
                            spec_trim_end(
                                spec_trim_start(
                                    spec_trim(s.subrange(0, p), None),
                                    Some('"'),
                                ),
                                Some('"'),
                            ),
                            None,
                        ),
                        spec_trim(s.subrange(p + 1, s.len() as int), None),
                    ),
                )
            } else {
                None
            }
        },
    }
}

/// Split one `"key": value` pair at its first colon.
#[verifier::loop_isolation(false)]
pub fn parse_json_kv(pair: &str) -> (r: Option<(String, String)>)
    ensures
        match r {
            Some(kv) => spec_parse_json_kv(pair@) == Some((kv.0@, kv.1@)),
            None => spec_parse_json_kv(pair@) is None,
        },
{
    let n = pair.unicode_len();
    let mut i: usize = 0;
    while i < n
        invariant
            0 <= i <= n,
            forall|k: int| 0 <= k < i ==> pair@[k] != ':',
        decreases n - i,
    {
        if pair.get_char(i) == ':' {
            proof {
                lemma_find_char_at(pair@, ':', i as int);
            }
            let key_part = pair.substring_char(0, i);
            let key = trim(trim_quotes(trim(key_part))).to_owned();
            let value = trim(pair.substring_char(i + 1, n)).to_owned();
            proof {
                assert(spec_trim_end(
                    spec_trim_start(spec_trim(pair@.subrange(0, i as int), None), Some('"')),
                    Some('"'),
                ) == spec_trim(spec_trim(pair@.subrange(0, i as int), None), Some('"')));
            }
            return Some((key, value));
        }
        i += 1;
    }
    proof {
        lemma_find_char_at(pair@, ':', n as int);
    }
    None
}

/// What `parse_json_bool` yields on the trimmed, unquoted text.
pub open spec fn spec_parse_json_bool(s: Seq<char>) -> Option<bool> {
    let t = spec_trim(spec_trim(s, None), Some('"'));
    if t == "true"@ {
        Some(true)
    } else if t == "false"@ {
        Some(false)
    } else {
        None
    }
}

/// Parse a boolean value, with or without quotes.
pub fn parse_json_bool(s: &str) -> (r: Option<bool>)
    ensures
        r == spec_parse_json_bool(s@),
{
    let t = trim_quotes(trim(s));
    if str_eq(t, "true") {
        Some(true)
    } else if str_eq(t, "false") {
        Some(false)
    } else {
        None
    }
}

/// One step of the pair scanner: position `i`, brace/bracket depth, whether
/// the scan stands inside a string, whether the last character was an
/// escape, and where the current piece began. Pieces split at top-level
/// commas outside strings; a trailing empty piece is dropped.
pub open spec fn spec_split_pairs(
    s: Seq<char>,
    i: int,
    depth: int,
    in_str: bool,
    esc: bool,
    start: int,
) -> Seq<Seq<char>>
    decreases s.len() - i,
{
    if !(0 <= start <= i <= s.len()) {
        Seq::empty()
    } else if i == s.len() {
        if start < s.len() {
            seq![s.subrange(start, s.len() as int)]
        } else {
            Seq::empty()
        }
    } else {
        let c = s[i];
        if esc {
            spec_split_pairs(s, i + 1, depth, in_str, false, start)
        } else if c == '\\' && in_str {
            spec_split_pairs(s, i + 1, depth, in_str, true, start)
        } else if c == '"' {
            spec_split_pairs(s, i + 1, depth, !in_str, false, start)
        } else if (c == '{' || c == '[') && !in_str {
            spec_split_pairs(s, i + 1, depth + 1, in_str, false, start)
        } else if (c == '}' || c == ']') && !in_str {
            spec_split_pairs(s, i + 1, depth - 1, in_str, false, start)
        } else if c == ',' && !in_str && depth == 0 {
            seq![s.subrange(start, i)] + spec_split_pairs(s, i + 1, depth, in_str, false, i + 1)
        } else {
            spec_split_pairs(s, i + 1, depth, in_str, false, start)
        }
    }
}

/// The key/value pieces of a flat object body, split at top-level commas.
pub open spec fn spec_split_json_pairs(s: Seq<char>) -> Seq<Seq<char>> {
    spec_split_pairs(s, 0, 0, false, false, 0)
}

/// Split a flat object body at top-level commas, leaving commas inside
/// strings, nested objects and arrays alone.
#[verifier::loop_isolation(false)]
pub fn split_json_pairs(s: &str) -> (r: Vec<String>)
    ensures
        crate::registry::strs_view(r@) == spec_split_json_pairs(s@),
{
    let n = s.unicode_len();
    let mut out: Vec<String> = Vec::new();
    let mut depth: i128 = 0;
    let mut in_str = false;
    let mut esc = false;
    let mut start: usize = 0;
    let mut i: usize = 0;
    while i < n
        invariant
            0 <= start <= i <= n,
            -(i as i128) <= depth <= i as i128,
            spec_split_json_pairs(s@) == crate::registry::strs_view(out@) + spec_split_pairs(
                s@,
                i as int,
                depth as int,
                in_str,
                esc,
                start as int,
            ),
        decreases n - i,
    {
        let c = s.get_char(i);
        if esc {
            esc = false;
        } else if c == '\\' && in_str {
            esc = true;
        } else if c == '"' {
            in_str = !in_str;
        } else if (c == '{' || c == '[') && !in_str {
            depth = depth + 1;
        } else if (c == '}' || c == ']') && !in_str {
            depth = depth - 1;
        } else if c == ',' && !in_str && depth == 0 {
            let piece = string_of_range(s, start, i);
            out.push(piece);
            proof {
                assert(crate::registry::strs_view(out@) =~= crate::registry::strs_view(
                    out@.drop_last(),
                ).push(s@.subrange(start as int, i as int)));
                assert(spec_split_json_pairs(s@) =~= crate::registry::strs_view(out@)
                    + spec_split_pairs(s@, i as int + 1, depth as int, in_str, false, i as int + 1));
            }
            start = i + 1;
        }
        i += 1;
    }
    if start < n {
        let piece = string_of_range(s, start, n);
        out.push(piece);
        proof {
            assert(crate::registry::strs_view(out@) =~= crate::registry::strs_view(
                out@.drop_last(),
            ).push(s@.subrange(start as int, n as int)));
            assert(spec_split_json_pairs(s@) =~= crate::registry::strs_view(out@));
        }
    } else {
        proof {
            assert(spec_split_json_pairs(s@) =~= crate::registry::strs_view(out@));
        }
    }
    out
}

/// The weight a named font-weight keyword stands for.
pub open spec fn spec_weight_keyword(low: Seq<char>) -> Option<Num> {
    if low == "thin"@ {
        Some(Num { neg: false, mant: 100, scale: 0 })
    } else if low == "extralight"@ || low == "extra-light"@ {
        Some(Num { neg: false, mant: 200, scale: 0 })
    } else if low == "light"@ {
        Some(Num { neg: false, mant: 300, scale: 0 })
    } else if low == "normal"@ || low == "regular"@ {
        Some(Num { neg: false, mant: 400, scale: 0 })
    } else if low == "medium"@ {
        Some(Num { neg: false, mant: 500, scale: 0 })
    } else if low == "semibold"@ || low == "semi-bold"@ {
        Some(Num { neg: false, mant: 600, scale: 0 })
    } else if low == "bold"@ {
        Some(Num { neg: false, mant: 700, scale: 0 })
    } else if low == "extrabold"@ || low == "extra-bold"@ {
        Some(Num { neg: false, mant: 800, scale: 0 })
    } else if low == "black"@ {
        Some(Num { neg: false, mant: 900, scale: 0 })
    } else {
        None
    }
}

/// The numbers among the comma-split padding pieces, each piece trimmed,
/// pieces that fail to parse dropped.
pub open spec fn spec_padding_nums(pieces: Seq<Seq<char>>, idx: int) -> Seq<Num>
    decreases pieces.len() - idx,
{
    if !(0 <= idx < pieces.len()) {
        Seq::empty()
    } else {
        match spec_parse_decimal(spec_trim(pieces[idx], None)) {
            Some(v) => seq![v] + spec_padding_nums(pieces, idx + 1),
            None => spec_padding_nums(pieces, idx + 1),
        }
    }
}

/// The padding field the padding text sets: a single number sets all four
/// sides; otherwise a quoted comma list of one, two or four numbers sets
/// the sides, and anything else leaves the field alone.
pub open spec fn spec_padding_of(old: Option<PaddingValue>, v: Seq<char>) -> Option<PaddingValue> {
    match spec_parse_decimal(spec_trim(v, Some('"'))) {
        Some(n) => Some(PaddingValue::Uniform(n)),
        None => {
            let inner = spec_unquote(v);
            if spec_find_char(inner, ',') is Some {
                let nums = spec_padding_nums(spec_split_char(inner, ','), 0);
                if nums.len() == 1 {
                    Some(PaddingValue::Uniform(nums[0]))
                } else if nums.len() == 2 {
                    Some(
                        PaddingValue::Sides {
                            top: nums[0],
                            right: nums[1],
                            bottom: nums[0],
                            left: nums[1],
                        },
                    )
                } else if nums.len() == 4 {
                    Some(
                        PaddingValue::Sides {
                            top: nums[0],
                            right: nums[1],
                            bottom: nums[2],
                            left: nums[3],
                        },
                    )
                } else {
                    old
                }
            } else {
                old
            }
        },
    }
}

/// The style keys `apply_style_property` recognizes.
pub open spec fn spec_style_recognized(key: Seq<char>) -> bool {
    ||| key == "fontSize"@
    ||| key == "font_size"@
    ||| key == "fontWeight"@
    ||| key == "font_weight"@
    ||| key == "fontStyle"@
    ||| key == "font_style"@
    ||| key == "fontFamily"@
    ||| key == "font_family"@
    ||| key == "color"@
    ||| key == "letterSpacing"@
    ||| key == "letter_spacing"@
    ||| key == "lineHeight"@
    ||| key == "line_height"@
    ||| key == "wordSpacing"@
    ||| key == "word_spacing"@
    ||| key == "underline"@
    ||| key == "strikethrough"@
    ||| key == "textAlign"@
    ||| key == "text_align"@
    ||| key == "background"@
    ||| key == "backgroundColor"@
    ||| key == "background_color"@
    ||| key == "bg"@
    ||| key == "borderColor"@
    ||| key == "border_color"@
    ||| key == "borderWidth"@
    ||| key == "border_width"@
    ||| key == "cornerRadius"@
    ||| key == "corner_radius"@
    ||| key == "borderRadius"@
    ||| key == "border_radius"@
    ||| key == "padding"@
    ||| key == "width"@
    ||| key == "height"@
    ||| key == "flex"@
    ||| key == "flexGrow"@
    ||| key == "flex_grow"@
    ||| key == "direction"@
    ||| key == "flexDirection"@
    ||| key == "flex_direction"@
    ||| key == "crossAxisAlignment"@
    ||| key == "cross_axis_alignment"@
    ||| key == "alignItems"@
    ||| key == "align_items"@
    ||| key == "mainAxisAlignment"@
    ||| key == "main_axis_alignment"@
    ||| key == "justifyContent"@
    ||| key == "justify_content"@
    ||| key == "gap"@
    ||| key == "mustFillMainAxis"@
    ||| key == "must_fill_main_axis"@
}

/// The style after one `key: value` property is applied: the named field is
/// replaced by the parsed value (or cleared when the text does not parse),
/// every other field kept; an unrecognized key changes nothing.
pub open spec fn spec_apply_style(st: BoxStyleV, key: Seq<char>, value: Seq<char>) -> BoxStyleV {
    let v = spec_trim(value, None);
    let qv = spec_trim(v, Some('"'));
    let uq = spec_unquote(v);
    let low = spec_to_lower(uq);
    if key == "fontSize"@ || key == "font_size"@ {
        BoxStyleV { font_size: spec_parse_decimal(qv), ..st }
    } else if key == "fontWeight"@ || key == "font_weight"@ {
        BoxStyleV {
            font_weight: match spec_parse_decimal(qv) {
                Some(n) => Some(n),
                None => spec_weight_keyword(low),
            },
            ..st
        }
    } else if key == "fontStyle"@ || key == "font_style"@ {
        BoxStyleV {
            font_style: if low == "italic"@ {
                Some(FontStyleValue::Italic)
            } else if low == "normal"@ {
                Some(FontStyleValue::Normal)
            } else {
                None
            },
            ..st
        }
    } else if key == "fontFamily"@ || key == "font_family"@ {
        BoxStyleV { font_family: Some(uq), ..st }
    } else if key == "color"@ {
        BoxStyleV { color: spec_parse_color(uq), ..st }
    } else if key == "letterSpacing"@ || key == "letter_spacing"@ {
        BoxStyleV { letter_spacing: spec_parse_decimal(qv), ..st }
    } else if key == "lineHeight"@ || key == "line_height"@ {
        BoxStyleV { line_height: spec_parse_decimal(qv), ..st }
    } else if key == "wordSpacing"@ || key == "word_spacing"@ {
        BoxStyleV { word_spacing: spec_parse_decimal(qv), ..st }
    } else if key == "underline"@ {
        BoxStyleV { underline: spec_parse_json_bool(v), ..st }
    } else if key == "strikethrough"@ {
        BoxStyleV { strikethrough: spec_parse_json_bool(v), ..st }
    } else if key == "textAlign"@ || key == "text_align"@ {
        BoxStyleV {
            text_align: if low == "start"@ || low == "left"@ {
                Some(TextAlignValue::Start)
            } else if low == "center"@ {
                Some(TextAlignValue::Center)
            } else if low == "end"@ || low == "right"@ {
                Some(TextAlignValue::End)
            } else if low == "justify"@ {
                Some(TextAlignValue::Justify)
            } else {
                None
            },
            ..st
        }
    } else if key == "background"@ || key == "backgroundColor"@ || key == "background_color"@
        || key == "bg"@ {
        BoxStyleV { background: spec_parse_color(uq), ..st }
    } else if key == "borderColor"@ || key == "border_color"@ {
        BoxStyleV { border_color: spec_parse_color(uq), ..st }
    } else if key == "borderWidth"@ || key == "border_width"@ {
        BoxStyleV { border_width: spec_parse_decimal(qv), ..st }
    } else if key == "cornerRadius"@ || key == "corner_radius"@ || key == "borderRadius"@ || key
        == "border_radius"@ {
        BoxStyleV { corner_radius: spec_parse_decimal(qv), ..st }
    } else if key == "padding"@ {
        BoxStyleV { padding: spec_padding_of(st.padding, v), ..st }
    } else if key == "width"@ {
        BoxStyleV { width: spec_parse_decimal(qv), ..st }
    } else if key == "height"@ {
        BoxStyleV { height: spec_parse_decimal(qv), ..st }
    } else if key == "flex"@ || key == "flexGrow"@ || key == "flex_grow"@ {
        BoxStyleV { flex: spec_parse_decimal(qv), ..st }
    } else if key == "direction"@ || key == "flexDirection"@ || key == "flex_direction"@ {
        BoxStyleV {
            direction: if low == "row"@ || low == "horizontal"@ {
                Some(FlexDirection::Row)
            } else if low == "column"@ || low == "vertical"@ {
                Some(FlexDirection::Column)
            } else {
                None
            },
            ..st
        }
    } else if key == "crossAxisAlignment"@ || key == "cross_axis_alignment"@ || key
        == "alignItems"@ || key == "align_items"@ {
        BoxStyleV {
            cross_axis_alignment: if low == "start"@ || low == "flex-start"@ {
                Some(CrossAlign::Start)
            } else if low == "center"@ {
                Some(CrossAlign::Center)
            } else if low == "end"@ || low == "flex-end"@ {
                Some(CrossAlign::End)
            } else if low == "fill"@ || low == "stretch"@ {
                Some(CrossAlign::Fill)
            } else if low == "baseline"@ {
                Some(CrossAlign::Baseline)
            } else {
                None
            },
            ..st
        }
    } else if key == "mainAxisAlignment"@ || key == "main_axis_alignment"@ || key
        == "justifyContent"@ || key == "justify_content"@ {
        BoxStyleV {
            main_axis_alignment: if low == "start"@ || low == "flex-start"@ {
                Some(MainAlign::Start)
            } else if low == "center"@ {
                Some(MainAlign::Center)
            } else if low == "end"@ || low == "flex-end"@ {
                Some(MainAlign::End)
            } else if low == "space-between"@ {
                Some(MainAlign::SpaceBetween)
            } else if low == "space-around"@ {
                Some(MainAlign::SpaceAround)
            } else if low == "space-evenly"@ {
                Some(MainAlign::SpaceEvenly)
            } else {
                None
            },
            ..st
        }
    } else if key == "gap"@ {
        BoxStyleV { gap: spec_parse_decimal(qv), ..st }
    } else if key == "mustFillMainAxis"@ || key == "must_fill_main_axis"@ {
        BoxStyleV { must_fill_main_axis: spec_parse_json_bool(v), ..st }
    } else {
        st
    }
}

/// The numbers among the padding pieces, in order.
#[verifier::loop_isolation(false)]
fn padding_nums(pieces: &Vec<String>) -> (r: Vec<Num>)
    ensures
        r@ == spec_padding_nums(crate::registry::strs_view(pieces@), 0),
        forall|k: int|
            0 <= k < r@.len() ==> (#[trigger] r@[k]).mant <= crate::num::MAX_MANT && r@[k].scale
                <= crate::num::MAX_SCALE,
{
    let ghost pv = crate::registry::strs_view(pieces@);
    let n = pieces.len();
    let mut out: Vec<Num> = Vec::new();
    let mut i: usize = 0;
    while i < n
        invariant
            0 <= i <= n,
            n == pieces@.len(),
            spec_padding_nums(pv, 0) == out@ + spec_padding_nums(pv, i as int),
            forall|k: int|
                0 <= k < out@.len() ==> (#[trigger] out@[k]).mant <= crate::num::MAX_MANT
                    && out@[k].scale <= crate::num::MAX_SCALE,
        decreases n - i,
    {
        match parse_decimal(trim(pieces[i].as_str())) {
            Some(v) => {
                out.push(v);
                proof {
                    assert(spec_padding_nums(pv, 0) =~= out@ + spec_padding_nums(pv, i as int + 1));
                }
            },
            None => {},
        }
        i += 1;
    }
    out
}

/// Apply one `key: value` style property in place. Yields whether the key
/// was recognized as a style property.
#[verifier::loop_isolation(false)]
#[verifier::rlimit(100)]
pub fn apply_style_property(style: &mut BoxStyle, key: &str, value: &str) -> (r: bool)
    ensures
        final(style)@ == spec_apply_style(old(style)@, key@, value@),
        r == spec_style_recognized(key@),
{
    let v = trim(value);
    if str_eq(key, "fontSize") || str_eq(key, "font_size") {
        style.font_size = parse_decimal(trim_quotes(v));
        true
    } else if str_eq(key, "fontWeight") || str_eq(key, "font_weight") {
        match parse_decimal(trim_quotes(v)) {
            Some(n) => {
                style.font_weight = Some(n);
            },
            None => {
                let uq = unquote(v);
                let u = uq.as_str();
                style.font_weight = if str_eq_lower(u, "thin") {
                    Some(Num { neg: false, mant: 100, scale: 0 })
                } else if str_eq_lower(u, "extralight") || str_eq_lower(u, "extra-light") {
                    Some(Num { neg: false, mant: 200, scale: 0 })
                } else if str_eq_lower(u, "light") {
                    Some(Num { neg: false, mant: 300, scale: 0 })
                } else if str_eq_lower(u, "normal") || str_eq_lower(u, "regular") {
                    Some(Num { neg: false, mant: 400, scale: 0 })
                } else if str_eq_lower(u, "medium") {
                    Some(Num { neg: false, mant: 500, scale: 0 })
                } else if str_eq_lower(u, "semibold") || str_eq_lower(u, "semi-bold") {
                    Some(Num { neg: false, mant: 600, scale: 0 })
                } else if str_eq_lower(u, "bold") {
                    Some(Num { neg: false, mant: 700, scale: 0 })
                } else if str_eq_lower(u, "extrabold") || str_eq_lower(u, "extra-bold") {
                    Some(Num { neg: false, mant: 800, scale: 0 })
                } else if str_eq_lower(u, "black") {
                    Some(Num { neg: false, mant: 900, scale: 0 })
                } else {
                    None
                };
            },
        }
        true
    } else if str_eq(key, "fontStyle") || str_eq(key, "font_style") {
        let uq = unquote(v);
        let u = uq.as_str();
        style.font_style = if str_eq_lower(u, "italic") {
            Some(FontStyleValue::Italic)
        } else if str_eq_lower(u, "normal") {
            Some(FontStyleValue::Normal)
        } else {
            None
        };
        true
    } else if str_eq(key, "fontFamily") || str_eq(key, "font_family") {
        style.font_family = Some(unquote(v));
        true
    } else if str_eq(key, "color") {
        style.color = ColorValue::parse(unquote(v).as_str());
        true
    } else if str_eq(key, "letterSpacing") || str_eq(key, "letter_spacing") {
        style.letter_spacing = parse_decimal(trim_quotes(v));
        true
    } else if str_eq(key, "lineHeight") || str_eq(key, "line_height") {
        style.line_height = parse_decimal(trim_quotes(v));
        true
    } else if str_eq(key, "wordSpacing") || str_eq(key, "word_spacing") {
        style.word_spacing = parse_decimal(trim_quotes(v));
        true
    } else if str_eq(key, "underline") {
        style.underline = parse_json_bool(v);
        true
    } else if str_eq(key, "strikethrough") {
        style.strikethrough = parse_json_bool(v);
        true
    } else if str_eq(key, "textAlign") || str_eq(key, "text_align") {
        let uq = unquote(v);
        let u = uq.as_str();
        style.text_align = if str_eq_lower(u, "start") || str_eq_lower(u, "left") {
            Some(TextAlignValue::Start)
        } else if str_eq_lower(u, "center") {
            Some(TextAlignValue::Center)
        } else if str_eq_lower(u, "end") || str_eq_lower(u, "right") {
            Some(TextAlignValue::End)
        } else if str_eq_lower(u, "justify") {
            Some(TextAlignValue::Justify)
        } else {
            None
        };
        true
    } else if str_eq(key, "background") || str_eq(key, "backgroundColor") || str_eq(
        key,
        "background_color",
    ) || str_eq(key, "bg") {
        style.background = ColorValue::parse(unquote(v).as_str());
        true
    } else if str_eq(key, "borderColor") || str_eq(key, "border_color") {
        style.border_color = ColorValue::parse(unquote(v).as_str());
        true
    } else if str_eq(key, "borderWidth") || str_eq(key, "border_width") {
        style.border_width = parse_decimal(trim_quotes(v));
        true
    } else if str_eq(key, "cornerRadius") || str_eq(key, "corner_radius") || str_eq(
        key,
        "borderRadius",
    ) || str_eq(key, "border_radius") {
        style.corner_radius = parse_decimal(trim_quotes(v));
        true
    } else if str_eq(key, "padding") {
        match parse_decimal(trim_quotes(v)) {
            Some(n) => {
                style.padding = Some(PaddingValue::Uniform(n));
            },
            None => {
                let inner = unquote(v);
                if contains_char(inner.as_str(), ',') {
                    let pieces = split_char(inner.as_str(), ',');
                    let nums = padding_nums(&pieces);
                    if nums.len() == 1 {
                        style.padding = Some(PaddingValue::Uniform(nums[0]));
                    } else if nums.len() == 2 {
                        style.padding = Some(
                            PaddingValue::Sides {
                                top: nums[0],
                                right: nums[1],
                                bottom: nums[0],
                                left: nums[1],
                            },
                        );
                    } else if nums.len() == 4 {
                        style.padding = Some(
                            PaddingValue::Sides {
                                top: nums[0],
                                right: nums[1],
                                bottom: nums[2],
                                left: nums[3],
                            },
                        );
                    }
                }
            },
        }
        true
    } else if str_eq(key, "width") {
        style.width = parse_decimal(trim_quotes(v));
        true
    } else if str_eq(key, "height") {
        style.height = parse_decimal(trim_quotes(v));
        true
    } else if str_eq(key, "flex") || str_eq(key, "flexGrow") || str_eq(key, "flex_grow") {
        style.flex = parse_decimal(trim_quotes(v));
        true
    } else if str_eq(key, "direction") || str_eq(key, "flexDirection") || str_eq(
        key,
        "flex_direction",
    ) {
        let uq = unquote(v);
        let u = uq.as_str();
        style.direction = if str_eq_lower(u, "row") || str_eq_lower(u, "horizontal") {
            Some(FlexDirection::Row)
        } else if str_eq_lower(u, "column") || str_eq_lower(u, "vertical") {
            Some(FlexDirection::Column)
        } else {
            None
        };
        true
    } else if str_eq(key, "crossAxisAlignment") || str_eq(key, "cross_axis_alignment") || str_eq(
        key,
        "alignItems",
    ) || str_eq(key, "align_items") {
        let uq = unquote(v);
        let u = uq.as_str();
        style.cross_axis_alignment = if str_eq_lower(u, "start") || str_eq_lower(u, "flex-start") {
            Some(CrossAlign::Start)
        } else if str_eq_lower(u, "center") {
            Some(CrossAlign::Center)
        } else if str_eq_lower(u, "end") || str_eq_lower(u, "flex-end") {
            Some(CrossAlign::End)
        } else if str_eq_lower(u, "fill") || str_eq_lower(u, "stretch") {
            Some(CrossAlign::Fill)
        } else if str_eq_lower(u, "baseline") {
            Some(CrossAlign::Baseline)
        } else {
            None
        };
        true
    } else if str_eq(key, "mainAxisAlignment") || str_eq(key, "main_axis_alignment") || str_eq(
        key,
        "justifyContent",
    ) || str_eq(key, "justify_content") {
        let uq = unquote(v);
        let u = uq.as_str();
        style.main_axis_alignment = if str_eq_lower(u, "start") || str_eq_lower(u, "flex-start") {
            Some(MainAlign::Start)
        } else if str_eq_lower(u, "center") {
            Some(MainAlign::Center)
        } else if str_eq_lower(u, "end") || str_eq_lower(u, "flex-end") {
            Some(MainAlign::End)
        } else if str_eq_lower(u, "space-between") {
            Some(MainAlign::SpaceBetween)
        } else if str_eq_lower(u, "space-around") {
            Some(MainAlign::SpaceAround)
        } else if str_eq_lower(u, "space-evenly") {
            Some(MainAlign::SpaceEvenly)
        } else {
            None
        };
        true
    } else if str_eq(key, "gap") {
        style.gap = parse_decimal(trim_quotes(v));
        true
    } else if str_eq(key, "mustFillMainAxis") || str_eq(key, "must_fill_main_axis") {
        style.must_fill_main_axis = parse_json_bool(v);
        true
    } else {
        false
    }
}

/// The trimmed body between the braces of a flat object.
pub open spec fn spec_object_body(t: Seq<char>) -> Seq<char> {
    spec_trim(spec_trim_end(spec_trim_start(t, Some('{')), Some('}')), None)
}

/// The value under `key` among the pieces, scanning from `idx`.
pub open spec fn spec_extract_from(
    pieces: Seq<Seq<char>>,
    idx: int,
    key: Seq<char>,
) -> Option<Seq<char>>
    decreases pieces.len() - idx,
{
    if !(0 <= idx < pieces.len()) {
        None
    } else {
        match spec_parse_json_kv(pieces[idx]) {
            Some(kv) => {
                if kv.0 == key {
                    Some(kv.1)
                } else {
                    spec_extract_from(pieces, idx + 1, key)
                }
            },
            None => spec_extract_from(pieces, idx + 1, key),
        }
    }
}

/// What `extract_json_value` yields: the raw value of the first pair whose
/// key is `key`, out of a flat object body.
pub open spec fn spec_extract_json_value(s: Seq<char>, key: Seq<char>) -> Option<Seq<char>> {
    let inner = spec_object_body(spec_trim(s, None));
    if inner.len() == 0 {
        None
    } else {
        spec_extract_from(spec_split_json_pairs(inner), 0, key)
    }
}

/// Extract the raw value of one key out of a flat object body.
#[verifier::loop_isolation(false)]
pub fn extract_json_value(json_str: &str, target_key: &str) -> (r: Option<String>)
    ensures
        match r {
            Some(v) => spec_extract_json_value(json_str@, target_key@) == Some(v@),
            None => spec_extract_json_value(json_str@, target_key@) is None,
        },
{
    let t = trim(json_str);
    let inner = trim(trim_end_char(trim_start_char(t, '{'), '}'));
    if inner.unicode_len() == 0 {
        return None;
    }
    let pieces = split_json_pairs(inner);
    let ghost pv = crate::registry::strs_view(pieces@);
    let n = pieces.len();
    let mut i: usize = 0;
    while i < n
        invariant
            0 <= i <= n,
            n == pieces@.len(),
            spec_extract_from(pv, 0, target_key@) == spec_extract_from(pv, i as int, target_key@),
        decreases n - i,
    {
        match parse_json_kv(pieces[i].as_str()) {
            Some(kv) => {
                if str_eq(kv.0.as_str(), target_key) {
                    return Some(kv.1);
                }
            },
            None => {},
        }
        i += 1;
    }
    None
}

/// The fold of the pair pieces over a style, from `idx` on: the style after
/// every recognized property is applied in order, and whether any property
/// was recognized at all.
pub open spec fn spec_apply_pairs(
    st: BoxStyleV,
    pieces: Seq<Seq<char>>,
    idx: int,
) -> (BoxStyleV, bool)
    decreases pieces.len() - idx,
{
    if !(0 <= idx < pieces.len()) {
        (st, false)
    } else {
        match spec_parse_json_kv(pieces[idx]) {
            Some(kv) => {
                let st2 = spec_apply_style(st, kv.0, kv.1);
                let rest = spec_apply_pairs(st2, pieces, idx + 1);
                (rest.0, spec_style_recognized(kv.0) || rest.1)
            },
            None => spec_apply_pairs(st, pieces, idx + 1),
        }
    }
}

/// What `parse_style_json` yields: the style folded from every recognized
/// pair of the flat object, or nothing when the text is empty, `{}`,
/// `null`, has an empty body, or holds no recognized property.
pub open spec fn spec_parse_style(s: Seq<char>) -> Option<BoxStyleV> {
    let t = spec_trim(s, None);
    if t.len() == 0 || t == "{}"@ || t == "null"@ {
        None
    } else {
        let inner = spec_object_body(t);
        if inner.len() == 0 {
            None
        } else {
            let fold = spec_apply_pairs(spec_empty_style(), spec_split_json_pairs(inner), 0);
            if fold.1 {
                Some(fold.0)
            } else {
                None
            }
        }
    }
}

/// Parse a flat style object into a style payload.
#[verifier::loop_isolation(false)]
pub fn parse_style_json(json_str: &str) -> (r: Option<BoxStyle>)
    ensures
        match r {
            Some(st) => spec_parse_style(json_str@) == Some(st@),
            None => spec_parse_style(json_str@) is None,
        },
{
    let t = trim(json_str);
    if t.unicode_len() == 0 || str_eq(t, "{}") || str_eq(t, "null") {
        return None;
    }
    let inner = trim(trim_end_char(trim_start_char(t, '{'), '}'));
    if inner.unicode_len() == 0 {
        return None;
    }
    let pieces = split_json_pairs(inner);
    let ghost pv = crate::registry::strs_view(pieces@);
    let n = pieces.len();
    let mut style = BoxStyle::default();
    let mut has_any = false;
    let mut i: usize = 0;
    while i < n
        invariant
            0 <= i <= n,
            n == pieces@.len(),
            spec_apply_pairs(spec_empty_style(), pv, 0).0 == spec_apply_pairs(
                style@,
                pv,
                i as int,
            ).0,
            spec_apply_pairs(spec_empty_style(), pv, 0).1 == (has_any || spec_apply_pairs(
                style@,
                pv,
                i as int,
            ).1),
        decreases n - i,
    {
        match parse_json_kv(pieces[i].as_str()) {
            Some(kv) => {
                if apply_style_property(&mut style, kv.0.as_str(), kv.1.as_str()) {
                    has_any = true;
                }
            },
            None => {},
        }
        i += 1;
    }
    if has_any {
        Some(style)
    } else {
        None
    }
}

/// Apply one style property in place, without reporting recognition: the
/// entry point the single-property command path shares with full styles.
pub fn apply_style_property_public(style: &mut BoxStyle, key: &str, value: &str)
    ensures
        final(style)@ == spec_apply_style(old(style)@, key@, value@),
{
    apply_style_property(style, key, value);
}

} // verus!
