//! String helpers at the byte level: comparison and rebuilding from UTF-8.

use vstd::prelude::*;

verus! {

use vstd::string::StrSliceExecFns;
use vstd::string::StringExecFns;
use vstd::string::StringSliceAdditionalSpecFns;
use vstd::utf8::decode_utf8;
use vstd::utf8::encode_utf8_decode_utf8;
use vstd::utf8::valid_utf8;

/// True exactly when the two string slices hold the same characters.
pub fn str_eq(a: &str, b: &str) -> (r: bool)
    ensures
        r == (a@ == b@),
{
    proof {
        encode_utf8_decode_utf8(a@);
        encode_utf8_decode_utf8(b@);
    }
    let ab = a.as_bytes();
    let bb = b.as_bytes();
    if ab.len() != bb.len() {
        return false;
    }
    let n = ab.len();
    let mut i: usize = 0;
    while i < n
        invariant
            i <= n,
            n == ab@.len(),
            n == bb@.len(),
            ab@ == a.spec_bytes(),
            bb@ == b.spec_bytes(),
            decode_utf8(a.spec_bytes()) == a@,
            decode_utf8(b.spec_bytes()) == b@,
            forall|k: int| 0 <= k < i ==> ab@[k] == bb@[k],
        decreases n - i,
    {
        if ab[i] != bb[i] {
            return false;
        }
        i += 1;
    }
    proof {
        assert(ab@ =~= bb@);
    }
    true
}

/// The whitespace characters the trimming helpers strip.
pub open spec fn spec_is_ws(c: char) -> bool {
    c == ' ' || c == '\t' || c == '\n' || c == '\r'
}

/// Executable form of `spec_is_ws`.
pub fn is_ws(c: char) -> (r: bool)
    ensures
        r == spec_is_ws(c),
{
    c == ' ' || c == '\t' || c == '\n' || c == '\r'
}

/// Characters stripped by the trimming helpers: the one in `sel`, or
/// whitespace when `sel` is empty.
pub open spec fn spec_strip(c: char, sel: Option<char>) -> bool {
    match sel {
        Some(ch) => c == ch,
        None => spec_is_ws(c),
    }
}

/// The sequence with stripped characters removed from the front.
pub open spec fn spec_trim_start(s: Seq<char>, sel: Option<char>) -> Seq<char>
    decreases s.len(),
{
    if s.len() > 0 && spec_strip(s[0], sel) {
        spec_trim_start(s.subrange(1, s.len() as int), sel)
    } else {
        s
    }
}

/// The sequence with stripped characters removed from the back.
pub open spec fn spec_trim_end(s: Seq<char>, sel: Option<char>) -> Seq<char>
    decreases s.len(),
{
    if s.len() > 0 && spec_strip(s[s.len() - 1], sel) {
        spec_trim_end(s.subrange(0, s.len() - 1), sel)
    } else {
        s
    }
}

/// The sequence with stripped characters removed from both ends.
pub open spec fn spec_trim(s: Seq<char>, sel: Option<char>) -> Seq<char> {
    spec_trim_end(spec_trim_start(s, sel), sel)
}

proof fn lemma_trim_start_at(s: Seq<char>, a: int, sel: Option<char>)
    requires
        0 <= a <= s.len(),
        forall|k: int| 0 <= k < a ==> spec_strip(s[k], sel),
        a == s.len() || !spec_strip(s[a], sel),
    ensures
        spec_trim_start(s, sel) =~= s.subrange(a, s.len() as int),
    decreases a,
{
    if a == 0 {
        if s.len() > 0 && spec_strip(s[0], sel) {
            assert(!spec_strip(s[a], sel));
        }
    } else {
        let s1 = s.subrange(1, s.len() as int);
        lemma_trim_start_at(s1, a - 1, sel);
        assert(s1.subrange(a - 1, s1.len() as int) =~= s.subrange(a, s.len() as int));
    }
}

proof fn lemma_trim_end_at(s: Seq<char>, b: int, sel: Option<char>)
    requires
        0 <= b <= s.len(),
        forall|k: int| b <= k < s.len() ==> spec_strip(s[k], sel),
        b == 0 || !spec_strip(s[b - 1], sel),
    ensures
        spec_trim_end(s, sel) =~= s.subrange(0, b),
    decreases s.len() - b,
{
    if b == s.len() {
        if s.len() > 0 && spec_strip(s[s.len() - 1], sel) {
            assert(!spec_strip(s[b - 1], sel));
        } else {
            assert(spec_trim_end(s, sel) =~= s.subrange(0, b));
        }
    } else {
        let s1 = s.subrange(0, s.len() - 1);
        lemma_trim_end_at(s1, b, sel);
        assert(s1.subrange(0, b) =~= s.subrange(0, b));
    }
}

/// Executable form of `spec_strip`.
pub fn strip_match(c: char, sel: Option<char>) -> (r: bool)
    ensures
        r == spec_strip(c, sel),
{
    match sel {
        Some(ch) => c == ch,
        None => is_ws(c),
    }
}

fn strip_at(s: &str, i: usize, sel: Option<char>) -> (r: bool)
    requires
        i < s@.len(),
    ensures
        r == spec_strip(s@[i as int], sel),
{
    strip_match(s.get_char(i), sel)
}

/// Strip whitespace (or, with `quotes`, double quotes) from both ends.
pub fn trim_ends<'a>(s: &'a str, sel: Option<char>) -> (r: &'a str)
    ensures
        r@ == spec_trim(s@, sel),
{
    let n = s.unicode_len();
    let mut a: usize = 0;
    while a < n && strip_at(s, a, sel)
        invariant
            0 <= a <= n,
            n == s@.len(),
            forall|k: int| 0 <= k < a ==> spec_strip(s@[k], sel),
        decreases n - a,
    {
        a += 1;
    }
    let mut b: usize = n;
    while b > a && strip_at(s, b - 1, sel)
        invariant
            a <= b <= n,
            n == s@.len(),
            forall|k: int| 0 <= k < a ==> spec_strip(s@[k], sel),
            a == n || !spec_strip(s@[a as int], sel),
            forall|k: int| b <= k < n ==> spec_strip(s@[k], sel),
        decreases b,
    {
        b -= 1;
    }
    proof {
        lemma_trim_start_at(s@, a as int, sel);
        let t = s@.subrange(a as int, n as int);
        lemma_trim_end_at(t, b - a, sel);
        assert(t.subrange(0, b - a) =~= s@.subrange(a as int, b as int));
    }
    s.substring_char(a, b)
}

/// Strip surrounding whitespace.
pub fn trim(s: &str) -> (r: &str)
    ensures
        r@ == spec_trim(s@, None),
{
    trim_ends(s, None)
}

/// Strip surrounding double quotes, as many as stand on each end.
pub fn trim_quotes(s: &str) -> (r: &str)
    ensures
        r@ == spec_trim(s@, Some('"')),
{
    trim_ends(s, Some('"'))
}

/// Strip every leading occurrence of `c`.
pub fn trim_start_char<'a>(s: &'a str, c: char) -> (r: &'a str)
    ensures
        r@ == spec_trim_start(s@, Some(c)),
{
    let n = s.unicode_len();
    let mut a: usize = 0;
    while a < n && strip_at(s, a, Some(c))
        invariant
            0 <= a <= n,
            n == s@.len(),
            forall|k: int| 0 <= k < a ==> spec_strip(s@[k], Some(c)),
        decreases n - a,
    {
        a += 1;
    }
    proof {
        lemma_trim_start_at(s@, a as int, Some(c));
    }
    s.substring_char(a, n)
}

/// Strip every trailing occurrence of `c`.
pub fn trim_end_char<'a>(s: &'a str, c: char) -> (r: &'a str)
    ensures
        r@ == spec_trim_end(s@, Some(c)),
{
    let n = s.unicode_len();
    let mut b: usize = n;
    while b > 0 && strip_at(s, b - 1, Some(c))
        invariant
            0 <= b <= n,
            n == s@.len(),
            forall|k: int| b <= k < n ==> spec_strip(s@[k], Some(c)),
        decreases b,
    {
        b -= 1;
    }
    proof {
        lemma_trim_end_at(s@, b as int, Some(c));
        assert(s@.subrange(0, b as int) =~= s@.subrange(0, b as int));
    }
    s.substring_char(0, b)
}

/// `s` starts with `p`.
pub open spec fn spec_starts_with(s: Seq<char>, p: Seq<char>) -> bool {
    s.len() >= p.len() && s.subrange(0, p.len() as int) == p
}

/// Whether `s` starts with the characters of `pat`.
pub fn starts_with(s: &str, pat: &str) -> (r: bool)
    ensures
        r == spec_starts_with(s@, pat@),
{
    let n = s.unicode_len();
    let m = pat.unicode_len();
    if n < m {
        return false;
    }
    str_eq(s.substring_char(0, m), pat)
}

/// `s` with every leading occurrence of the non-empty prefix `p` removed.
pub open spec fn spec_strip_prefix_all(s: Seq<char>, p: Seq<char>) -> Seq<char>
    decreases s.len(),
{
    if p.len() > 0 && spec_starts_with(s, p) {
        spec_strip_prefix_all(s.subrange(p.len() as int, s.len() as int), p)
    } else {
        s
    }
}

/// Strip every leading occurrence of `pat`.
pub fn strip_prefix_all<'a>(s: &'a str, pat: &str) -> (r: &'a str)
    requires
        pat@.len() > 0,
    ensures
        r@ == spec_strip_prefix_all(s@, pat@),
{
    let m = pat.unicode_len();
    let mut cur: &str = s;
    loop
        invariant
            m == pat@.len(),
            m > 0,
            spec_strip_prefix_all(s@, pat@) == spec_strip_prefix_all(cur@, pat@),
        decreases cur@.len(),
    {
        if starts_with(cur, pat) {
            let n = cur.unicode_len();
            cur = cur.substring_char(m, n);
        } else {
            return cur;
        }
    }
}

/// The position of the first occurrence of `c` in `s`.
pub open spec fn spec_find_char(s: Seq<char>, c: char) -> Option<int>
    decreases s.len(),
{
    if s.len() == 0 {
        None
    } else if s[0] == c {
        Some(0int)
    } else {
        match spec_find_char(s.subrange(1, s.len() as int), c) {
            Some(i) => Some(i + 1),
            None => None,
        }
    }
}

/// A scan that saw no `c` before `p` and `c` at `p` found the first one.
pub proof fn lemma_find_char_at(s: Seq<char>, c: char, p: int)
    requires
        0 <= p <= s.len(),
        forall|k: int| 0 <= k < p ==> s[k] != c,
        p == s.len() || s[p] == c,
    ensures
        p < s.len() ==> spec_find_char(s, c) == Some(p),
        p == s.len() ==> spec_find_char(s, c) is None,
    decreases p,
{
    if s.len() > 0 && s[0] != c {
        let s1 = s.subrange(1, s.len() as int);
        lemma_find_char_at(s1, c, p - 1);
    }
}

/// The pieces of `s[start ..]` between occurrences of `sep`, scanning from
/// position `i`: always one more piece than separators, empty pieces kept.
pub open spec fn spec_split_from(s: Seq<char>, sep: char, start: int, i: int) -> Seq<Seq<char>>
    decreases s.len() - i,
{
    if !(0 <= start <= i <= s.len()) {
        Seq::empty()
    } else if i == s.len() {
        seq![s.subrange(start, i)]
    } else if s[i] == sep {
        seq![s.subrange(start, i)] + spec_split_from(s, sep, i + 1, i + 1)
    } else {
        spec_split_from(s, sep, start, i + 1)
    }
}

/// The pieces of `s` between occurrences of `sep`.
pub open spec fn spec_split_char(s: Seq<char>, sep: char) -> Seq<Seq<char>> {
    spec_split_from(s, sep, 0, 0)
}

/// Split `s` at every occurrence of `sep`, keeping empty pieces.
#[verifier::loop_isolation(false)]
pub fn split_char(s: &str, sep: char) -> (r: Vec<String>)
    ensures
        crate::registry::strs_view(r@) == spec_split_char(s@, sep),
{
    let n = s.unicode_len();
    let mut out: Vec<String> = Vec::new();
    let mut start: usize = 0;
    let mut i: usize = 0;
    while i < n
        invariant
            0 <= start <= i <= n,
            spec_split_char(s@, sep) == crate::registry::strs_view(out@) + spec_split_from(
                s@,
                sep,
                start as int,
                i as int,
            ),
        decreases n - i,
    {
        if s.get_char(i) == sep {
            let piece = string_of_range(s, start, i);
            out.push(piece);
            proof {
                assert(crate::registry::strs_view(out@) =~= crate::registry::strs_view(
                    out@.drop_last(),
                ).push(s@.subrange(start as int, i as int)));
                assert(spec_split_char(s@, sep) =~= crate::registry::strs_view(out@)
                    + spec_split_from(s@, sep, i as int + 1, i as int + 1));
            }
            start = i + 1;
        }
        i += 1;
    }
    let piece = string_of_range(s, start, n);
    out.push(piece);
    proof {
        assert(crate::registry::strs_view(out@) =~= crate::registry::strs_view(
            out@.drop_last(),
        ).push(s@.subrange(start as int, n as int)));
        assert(spec_split_char(s@, sep) =~= crate::registry::strs_view(out@));
    }
    out
}

/// ASCII lowercase of one character.
pub open spec fn spec_lower_char(c: char) -> char {
    if c == 'A' {
        'a'
    } else if c == 'B' {
        'b'
    } else if c == 'C' {
        'c'
    } else if c == 'D' {
        'd'
    } else if c == 'E' {
        'e'
    } else if c == 'F' {
        'f'
    } else if c == 'G' {
        'g'
    } else if c == 'H' {
        'h'
    } else if c == 'I' {
        'i'
    } else if c == 'J' {
        'j'
    } else if c == 'K' {
        'k'
    } else if c == 'L' {
        'l'
    } else if c == 'M' {
        'm'
    } else if c == 'N' {
        'n'
    } else if c == 'O' {
        'o'
    } else if c == 'P' {
        'p'
    } else if c == 'Q' {
        'q'
    } else if c == 'R' {
        'r'
    } else if c == 'S' {
        's'
    } else if c == 'T' {
        't'
    } else if c == 'U' {
        'u'
    } else if c == 'V' {
        'v'
    } else if c == 'W' {
        'w'
    } else if c == 'X' {
        'x'
    } else if c == 'Y' {
        'y'
    } else if c == 'Z' {
        'z'
    } else {
        c
    }
}

/// ASCII lowercase of a character sequence.
pub open spec fn spec_to_lower(s: Seq<char>) -> Seq<char> {
    s.map_values(|c: char| spec_lower_char(c))
}

/// Executable ASCII lowercase of one character.
pub fn lower_char(c: char) -> (r: char)
    ensures
        r == spec_lower_char(c),
{
    match c {
        'A' => 'a',
        'B' => 'b',
        'C' => 'c',
        'D' => 'd',
        'E' => 'e',
        'F' => 'f',
        'G' => 'g',
        'H' => 'h',
        'I' => 'i',
        'J' => 'j',
        'K' => 'k',
        'L' => 'l',
        'M' => 'm',
        'N' => 'n',
        'O' => 'o',
        'P' => 'p',
        'Q' => 'q',
        'R' => 'r',
        'S' => 's',
        'T' => 't',
        'U' => 'u',
        'V' => 'v',
        'W' => 'w',
        'X' => 'x',
        'Y' => 'y',
        'Z' => 'z',
        other => other,
    }
}

/// Lowercased (ASCII) comparison of a string slice against another.
pub fn str_eq_lower(s: &str, pat: &str) -> (r: bool)
    ensures
        r == (spec_to_lower(s@) == pat@),
{
    let n = s.unicode_len();
    let m = pat.unicode_len();
    if n != m {
        proof {
            assert(spec_to_lower(s@).len() == s@.len());
        }
        return false;
    }
    let mut i: usize = 0;
    while i < n
        invariant
            0 <= i <= n,
            n == s@.len(),
            n == pat@.len(),
            forall|k: int| 0 <= k < i ==> spec_to_lower(s@)[k] == pat@[k],
        decreases n - i,
    {
        let c = lower_char(s.get_char(i));
        let d = pat.get_char(i);
        if c != d {
            proof {
                assert(spec_to_lower(s@)[i as int] != pat@[i as int]);
            }
            return false;
        }
        i += 1;
    }
    proof {
        assert(spec_to_lower(s@) =~= pat@);
    }
    true
}

fn lower_str_of(c: char) -> (r: &'static str)
    requires
        65 <= c as u32 <= 90,
    ensures
        r@ =~= seq![spec_lower_char(c)],
{
    proof {
        reveal_strlit("a");
        reveal_strlit("b");
        reveal_strlit("c");
        reveal_strlit("d");
        reveal_strlit("e");
        reveal_strlit("f");
        reveal_strlit("g");
        reveal_strlit("h");
        reveal_strlit("i");
        reveal_strlit("j");
        reveal_strlit("k");
        reveal_strlit("l");
        reveal_strlit("m");
        reveal_strlit("n");
        reveal_strlit("o");
        reveal_strlit("p");
        reveal_strlit("q");
        reveal_strlit("r");
        reveal_strlit("s");
        reveal_strlit("t");
        reveal_strlit("u");
        reveal_strlit("v");
        reveal_strlit("w");
        reveal_strlit("x");
        reveal_strlit("y");
        reveal_strlit("z");
    }
    match c {
        'A' => "a",
        'B' => "b",
        'C' => "c",
        'D' => "d",
        'E' => "e",
        'F' => "f",
        'G' => "g",
        'H' => "h",
        'I' => "i",
        'J' => "j",
        'K' => "k",
        'L' => "l",
        'M' => "m",
        'N' => "n",
        'O' => "o",
        'P' => "p",
        'Q' => "q",
        'R' => "r",
        'S' => "s",
        'T' => "t",
        'U' => "u",
        'V' => "v",
        'W' => "w",
        'X' => "x",
        'Y' => "y",
        'Z' => "z",
        _ => "a",
    }
}

/// An owned ASCII-lowercased copy of `s`.
#[verifier::loop_isolation(false)]
pub fn str_to_lower(s: &str) -> (r: String)
    ensures
        r@ == spec_to_lower(s@),
{
    let n = s.unicode_len();
    let mut acc = String::new();
    let mut i: usize = 0;
    while i < n
        invariant
            0 <= i <= n,
            acc@ =~= spec_to_lower(s@).subrange(0, i as int),
        decreases n - i,
    {
        let c = s.get_char(i);
        let u = c as u32;
        if 65 <= u && u <= 90 {
            acc.append(lower_str_of(c));
        } else {
            proof {
                assert(spec_lower_char(c) == c);
            }
            append_char_of(&mut acc, s, i);
        }
        proof {
            assert(acc@ =~= spec_to_lower(s@).subrange(0, i as int + 1));
        }
        i += 1;
    }
    proof {
        assert(spec_to_lower(s@).subrange(0, n as int) =~= spec_to_lower(s@));
    }
    acc
}

/// Append one character of `src` (the one at `i`) to `acc`.
pub fn append_char_of(acc: &mut String, src: &str, i: usize)
    requires
        i < src@.len(),
        i < usize::MAX,
    ensures
        final(acc)@ == old(acc)@.push(src@[i as int]),
{
    let piece = src.substring_char(i, i + 1);
    acc.append(piece);
    proof {
        assert(old(acc)@ + src@.subrange(i as int, i + 1) =~= old(acc)@.push(src@[i as int]));
    }
}

/// Copy a character range of `src` into an owned string.
pub fn string_of_range(src: &str, from: usize, to: usize) -> (r: String)
    requires
        from <= to <= src@.len(),
    ensures
        r@ == src@.subrange(from as int, to as int),
{
    let piece = src.substring_char(from, to);
    piece.to_owned()
}

/// Relies on `String::from_utf8`: it succeeds exactly on valid UTF-8 input
/// and the returned string holds the characters those bytes encode.
#[verifier::external_body]
pub fn bytes_to_string(v: Vec<u8>) -> (r: Option<String>)
    ensures
        match r {
            Some(s) => valid_utf8(v@) && s@ == decode_utf8(v@),
            None => !valid_utf8(v@),
        },
{
    match String::from_utf8(v) {
        Ok(s) => Some(s),
        Err(_) => None,
    }
}

} // verus!
