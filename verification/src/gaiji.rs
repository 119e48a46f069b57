//! External-glyph directives: a glyph described by a Unicode codepoint
//! (`U+XXXX`) or by a plane-row-cell code (`D-DD-DD`).

use vstd::prelude::*;

use crate::jis_table::{jis_to_unicode, normalize_jis_code, spec_jis_to_unicode,
    spec_normalize_jis};
use crate::strutil::{chars_range_to_string, chars_to_string, is_decimal_ascii, str_to_chars};

verus! {

/// Whether `c` is an ASCII hexadecimal digit.
pub open spec fn is_hex_char(c: char) -> bool {
    is_decimal_ascii(c) || c == 'a' || c == 'b' || c == 'c' || c == 'd' || c == 'e' || c == 'f'
        || c == 'A' || c == 'B' || c == 'C' || c == 'D' || c == 'E' || c == 'F'
}

/// The value of a hexadecimal digit.
pub open spec fn spec_hex_digit(c: char) -> int {
    if c == '0' { 0 } else if c == '1' { 1 } else if c == '2' { 2 } else if c == '3' { 3 }
    else if c == '4' { 4 } else if c == '5' { 5 } else if c == '6' { 6 } else if c == '7' { 7 }
    else if c == '8' { 8 } else if c == '9' { 9 } else if c == 'a' || c == 'A' { 10 }
    else if c == 'b' || c == 'B' { 11 } else if c == 'c' || c == 'C' { 12 }
    else if c == 'd' || c == 'D' { 13 } else if c == 'e' || c == 'E' { 14 } else { 15 }
}

/// The value of a run of hexadecimal digits.
pub open spec fn spec_hex_value(ds: Seq<char>) -> int
    decreases ds.len(),
{
    if ds.len() == 0 {
        0
    } else {
        spec_hex_value(ds.drop_last()) * 16 + spec_hex_digit(ds.last())
    }
}

/// Whether a codepoint is a Unicode scalar value.
pub open spec fn is_scalar_value(code: u32) -> bool {
    code < 0xD800 || (0xE000 <= code && code <= 0x10FFFF)
}

/// Relies on `char::from_u32`: the character of a codepoint, where the
/// codepoint is a Unicode scalar value, and nothing otherwise.
#[verifier::external_body]
fn char_from_u32(code: u32) -> (r: Option<char>)
    ensures
        r == if is_scalar_value(code) {
            Some(code as char)
        } else {
            None::<char>
        },
{
    char::from_u32(code)
}

/// First position at or after `i` where `U+` or `u+` begins, or `-1`.
pub open spec fn spec_find_uplus(s: Seq<char>, i: int) -> int
    decreases s.len() - i,
    when 0 <= i
{
    if i + 1 >= s.len() {
        -1
    } else if (s[i] == 'U' || s[i] == 'u') && s[i + 1] == '+' {
        i
    } else {
        spec_find_uplus(s, i + 1)
    }
}

/// First position at or after `i` holding a non-hexadecimal character.
pub open spec fn spec_hex_end(s: Seq<char>, i: int) -> int
    decreases s.len() - i,
    when 0 <= i
{
    if i >= s.len() {
        s.len() as int
    } else if is_hex_char(s[i]) {
        spec_hex_end(s, i + 1)
    } else {
        i
    }
}

proof fn lemma_find_uplus(s: Seq<char>, i: int)
    requires
        0 <= i,
    ensures
        spec_find_uplus(s, i) == -1 || (i <= spec_find_uplus(s, i)
            && spec_find_uplus(s, i) + 1 < s.len()),
    decreases s.len() - i,
{
    if i + 1 < s.len() && !((s[i] == 'U' || s[i] == 'u') && s[i + 1] == '+') {
        lemma_find_uplus(s, i + 1);
    }
}

proof fn lemma_hex_end(s: Seq<char>, i: int)
    requires
        0 <= i <= s.len(),
    ensures
        i <= spec_hex_end(s, i) <= s.len(),
    decreases s.len() - i,
{
    if i < s.len() && is_hex_char(s[i]) {
        lemma_hex_end(s, i + 1);
    }
}

/// The character named by a `U+XXXX` pattern in the text: the hexadecimal
/// run after the first such prefix, where its value is a scalar value.
pub open spec fn spec_extract_unicode(s: Seq<char>) -> Option<char> {
    let p = spec_find_uplus(s, 0);
    if p < 0 {
        None
    } else {
        let he = spec_hex_end(s, p + 2);
        if he <= p + 2 {
            None
        } else {
            let code = spec_hex_value(s.subrange(p + 2, he));
            if code > u32::MAX {
                None
            } else if is_scalar_value(code as u32) {
                Some(code as u32 as char)
            } else {
                None
            }
        }
    }
}

proof fn lemma_hex_value_monotone(ds: Seq<char>, i: int)
    requires
        0 <= i <= ds.len(),
        spec_hex_value(ds.subrange(0, i)) > u32::MAX,
    ensures
        spec_hex_value(ds) > u32::MAX,
    decreases ds.len() - i,
{
    if i < ds.len() {
        let a = ds.subrange(0, i);
        let b = ds.subrange(0, i + 1);
        assert(b.drop_last() =~= a);
        assert(spec_hex_value(b) == spec_hex_value(a) * 16 + spec_hex_digit(b.last()));
        assert(spec_hex_digit(b.last()) >= 0);
        assert(spec_hex_value(a) * 16 > 68719476720int) by (nonlinear_arith)
            requires
                spec_hex_value(a) > 4294967295int,
        {}
        lemma_hex_value_monotone(ds, i + 1);
    } else {
        assert(ds.subrange(0, i) =~= ds);
    }
}

fn hex_char(c: char) -> (r: bool)
    ensures
        r == is_hex_char(c),
{
    ('0' <= c && c <= '9') || ('a' <= c && c <= 'f') || ('A' <= c && c <= 'F')
}

fn hex_digit_of(c: char) -> (d: u64)
    ensures
        d as int == spec_hex_digit(c),
        d <= 15,
{
    match c {
        '0' => 0, '1' => 1, '2' => 2, '3' => 3, '4' => 4, '5' => 5, '6' => 6, '7' => 7,
        '8' => 8, '9' => 9, 'a' | 'A' => 10, 'b' | 'B' => 11, 'c' | 'C' => 12, 'd' | 'D' => 13,
        'e' | 'E' => 14, _ => 15,
    }
}

/// Find the first `U+`/`u+` prefix.
fn find_uplus_exec(v: &Vec<char>) -> (r: Option<usize>)
    ensures
        match r {
            Some(i) => spec_find_uplus(v@, 0) == i as int && i + 1 < v@.len(),
            None => spec_find_uplus(v@, 0) == -1,
        },
{
    let n = v.len();
    let mut i: usize = 0;
    while i < n
        invariant
            i <= n,
            n == v@.len(),
            spec_find_uplus(v@, 0) == spec_find_uplus(v@, i as int),
        decreases n - i,
    {
        if n - i <= 1 {
            return None;
        }
        let c = v[i];
        if (c == 'U' || c == 'u') && v[i + 1] == '+' {
            return Some(i);
        }
        i += 1;
    }
    None
}

/// The character named by a `U+XXXX` pattern in the text, if any.
pub fn extract_unicode_char(v: &Vec<char>) -> (r: Option<char>)
    ensures
        r == spec_extract_unicode(v@),
{
    let ghost s = v@;
    let n = v.len();
    let p = match find_uplus_exec(v) {
        Some(i) => i,
        None => {
            return None;
        },
    };
    let mut he: usize = p + 2;
    while he < n && hex_char(v[he])
        invariant
            p + 2 <= he <= n,
            n == s.len(),
            s == v@,
            spec_hex_end(s, p as int + 2) == spec_hex_end(s, he as int),
        decreases n - he,
    {
        he += 1;
    }
    proof {
        lemma_hex_end(s, p as int + 2);
        assert(he as int == spec_hex_end(s, p as int + 2));
    }
    if he <= p + 2 {
        return None;
    }
    let ghost hex = s.subrange(p as int + 2, he as int);
    proof {
        lemma_hex_all(s, p as int + 2, he as int);
        assert(s.subrange(p as int + 2, p as int + 2) =~= Seq::<char>::empty());
    }
    let mut code: u64 = 0;
    let mut j: usize = p + 2;
    while j < he
        invariant
            p + 2 < he <= n,
            p + 2 <= j <= he,
            n == s.len(),
            s == v@,
            spec_find_uplus(s, 0) == p as int,
            he as int == spec_hex_end(s, p as int + 2),
            hex == s.subrange(p as int + 2, he as int),
            code <= u32::MAX as u64,
            code == spec_hex_value(s.subrange(p as int + 2, j as int)),
        decreases he - j,
    {
        let c = v[j];
        let d = hex_digit_of(c);
        proof {
            assert(s.subrange(p as int + 2, j as int + 1).drop_last() =~= s.subrange(
                p as int + 2,
                j as int,
            ));
            assert(s.subrange(p as int + 2, j as int + 1).last() == s[j as int]);
        }
        let next = code * 16 + d;
        if next > u32::MAX as u64 {
            proof {
                assert(s.subrange(p as int + 2, j as int + 1) =~= hex.subrange(
                    0,
                    j as int + 1 - (p as int + 2),
                ));
                lemma_hex_value_monotone(hex, j as int + 1 - (p as int + 2));
            }
            return None;
        }
        code = next;
        j += 1;
    }
    proof {
        assert(s.subrange(p as int + 2, he as int) =~= hex);
    }
    char_from_u32(code as u32)
}

proof fn lemma_hex_all(s: Seq<char>, i: int, e: int)
    requires
        0 <= i <= s.len(),
        e == spec_hex_end(s, i),
    ensures
        forall|k: int| i <= k < e ==> is_hex_char(s[k]),
    decreases s.len() - i,
{
    if i < s.len() && is_hex_char(s[i]) {
        lemma_hex_all(s, i + 1, e);
    }
}

/// First non-digit position at or after `i`.
pub open spec fn spec_digits_end(s: Seq<char>, i: int) -> int
    decreases s.len() - i,
    when 0 <= i
{
    if i >= s.len() {
        s.len() as int
    } else if is_decimal_ascii(s[i]) {
        spec_digits_end(s, i + 1)
    } else {
        i
    }
}

proof fn lemma_digits_end(s: Seq<char>, i: int)
    requires
        0 <= i <= s.len(),
    ensures
        i <= spec_digits_end(s, i) <= s.len(),
    decreases s.len() - i,
{
    if i < s.len() && is_decimal_ascii(s[i]) {
        lemma_digits_end(s, i + 1);
    }
}

/// The first `digits-digits-digits` pattern at or after `i`, as the span
/// from its first digit to the end of its third digit run.
pub open spec fn spec_find_jis(s: Seq<char>, i: int) -> Option<Seq<char>>
    decreases s.len() - i,
    when 0 <= i
    via spec_find_jis_decreases
{
    if i >= s.len() {
        None
    } else if !is_decimal_ascii(s[i]) {
        spec_find_jis(s, i + 1)
    } else {
        let e1 = spec_digits_end(s, i);
        if e1 < s.len() && s[e1] == '-' {
            let e2 = spec_digits_end(s, e1 + 1);
            if e2 < s.len() && s[e2] == '-' {
                let e3 = spec_digits_end(s, e2 + 1);
                Some(s.subrange(i, e3))
            } else {
                spec_find_jis(s, e2)
            }
        } else {
            spec_find_jis(s, e1)
        }
    }
}

#[via_fn]
proof fn spec_find_jis_decreases(s: Seq<char>, i: int) {
    if 0 <= i < s.len() && is_decimal_ascii(s[i]) {
        lemma_digits_end(s, i + 1);
        assert(spec_digits_end(s, i) == spec_digits_end(s, i + 1));
        let e1 = spec_digits_end(s, i);
        if e1 < s.len() && s[e1] == '-' {
            lemma_digits_end(s, e1 + 1);
        }
    }
}

/// The plane-row-cell code written in the text, if any.
pub open spec fn spec_extract_jis_code(s: Seq<char>) -> Option<Seq<char>> {
    spec_find_jis(s, 0)
}

/// Scan for the first digit run at or after `from`.
fn digits_end_exec(v: &Vec<char>, from: usize) -> (r: usize)
    requires
        from <= v@.len(),
    ensures
        r as int == spec_digits_end(v@, from as int),
{
    let mut i: usize = from;
    while i < v.len()
        invariant
            from <= i <= v@.len(),
            spec_digits_end(v@, from as int) == spec_digits_end(v@, i as int),
        decreases v@.len() - i,
    {
        let c = v[i];
        let ok = c == '0' || c == '1' || c == '2' || c == '3' || c == '4' || c == '5' || c == '6'
            || c == '7' || c == '8' || c == '9';
        if !ok {
            return i;
        }
        i += 1;
    }
    i
}

/// The plane-row-cell code written in the text held as characters, if any.
pub fn extract_jis_code_chars(v: &Vec<char>) -> (r: Option<String>)
    ensures
        match r {
            Some(code) => spec_extract_jis_code(v@) == Some(code@),
            None => spec_extract_jis_code(v@) is None,
        },
{
    let ghost s = v@;
    let n = v.len();
    let mut i: usize = 0;
    while i < n
        invariant
            i <= n,
            n == s.len(),
            s == v@,
            spec_find_jis(s, 0) == spec_find_jis(s, i as int),
        decreases n - i,
    {
        let c = v[i];
        let is_digit = c == '0' || c == '1' || c == '2' || c == '3' || c == '4' || c == '5'
            || c == '6' || c == '7' || c == '8' || c == '9';
        if is_digit {
            proof {
                lemma_digits_end(s, i as int + 1);
                assert(spec_digits_end(s, i as int) == spec_digits_end(s, i as int + 1));
            }
            let e1 = digits_end_exec(v, i);
            if e1 < n && v[e1] == '-' {
                proof {
                    lemma_digits_end(s, e1 as int + 1);
                }
                let e2 = digits_end_exec(v, e1 + 1);
                if e2 < n && v[e2] == '-' {
                    proof {
                        lemma_digits_end(s, e2 as int + 1);
                    }
                    let e3 = digits_end_exec(v, e2 + 1);
                    return Some(chars_range_to_string(v, i, e3));
                }
                i = e2;
            } else {
                i = e1;
            }
        } else {
            i += 1;
        }
    }
    None
}

/// The plane-row-cell code written in the text, if any.
pub fn extract_jis_code(description: &str) -> (r: Option<String>)
    ensures
        match r {
            Some(code) => spec_extract_jis_code(description@) == Some(code@),
            None => spec_extract_jis_code(description@) is None,
        },
{
    let v = str_to_chars(description);
    extract_jis_code_chars(&v)
}

/// The character named by a `U+XXXX` pattern in the text, if any.
pub fn extract_unicode(description: &str) -> (r: Option<char>)
    ensures
        r == spec_extract_unicode(description@),
{
    let v = str_to_chars(description);
    extract_unicode_char(&v)
}

/// Mathematical model of a glyph conversion outcome.
#[verifier::ext_equal]
pub enum GaijiResultM {
    /// A codepoint was named and converted.
    Unicode(Seq<char>),
    /// A code was named and the packaged table converted it.
    JisConverted { jis_code: Seq<char>, unicode: Seq<char> },
    /// A code was named but the table has no entry: an image must stand in.
    JisImage { jis_code: Seq<char> },
    /// Nothing convertible was named.
    Unconvertible,
}

/// Outcome of converting a glyph description.
#[derive(Debug, Clone, PartialEq)]
pub enum GaijiResult {
    /// A codepoint was named and converted.
    Unicode(String),
    /// A code was named and the packaged table converted it.
    JisConverted {
        /// The normalized code.
        jis_code: String,
        /// The converted text.
        unicode: String,
    },
    /// A code was named but the table has no entry: an image must stand in.
    JisImage {
        /// The normalized code.
        jis_code: String,
    },
    /// Nothing convertible was named.
    Unconvertible,
}

impl GaijiResult {
    /// The model of this outcome.
    pub open spec fn model(self) -> GaijiResultM {
        match self {
            GaijiResult::Unicode(s) => GaijiResultM::Unicode(s@),
            GaijiResult::JisConverted { jis_code, unicode } => GaijiResultM::JisConverted {
                jis_code: jis_code@,
                unicode: unicode@,
            },
            GaijiResult::JisImage { jis_code } => GaijiResultM::JisImage { jis_code: jis_code@ },
            GaijiResult::Unconvertible => GaijiResultM::Unconvertible,
        }
    }
}

/// The outcome of converting a glyph description: a named codepoint wins,
/// then a named code through the packaged table (normalized), and otherwise
/// nothing.
pub open spec fn spec_parse_gaiji(s: Seq<char>) -> GaijiResultM {
    match spec_extract_unicode(s) {
        Some(c) => GaijiResultM::Unicode(seq![c]),
        None => match spec_extract_jis_code(s) {
            Some(code) => {
                let normalized = spec_normalize_jis(code);
                match spec_jis_to_unicode(normalized) {
                    Some(u) => GaijiResultM::JisConverted { jis_code: normalized, unicode: u },
                    None => GaijiResultM::JisImage { jis_code: normalized },
                }
            },
            None => GaijiResultM::Unconvertible,
        },
    }
}

/// Convert a glyph description.
pub fn parse_gaiji(description: &str) -> (r: GaijiResult)
    ensures
        r.model() == spec_parse_gaiji(description@),
{
    let v = str_to_chars(description);
    if let Some(c) = extract_unicode_char(&v) {
        let mut s = String::new();
        crate::strutil::push_char(&mut s, c);
        proof {
            assert(s@ =~= seq![c]);
        }
        return GaijiResult::Unicode(s);
    }
    match extract_jis_code_chars(&v) {
        Some(code) => {
            let normalized = normalize_jis_code(code.as_str());
            match jis_to_unicode(normalized.as_str()) {
                Some(u) => GaijiResult::JisConverted { jis_code: normalized, unicode: u },
                None => GaijiResult::JisImage { jis_code: normalized },
            }
        },
        None => GaijiResult::Unconvertible,
    }
}

/// The plain text a glyph description converts to: the converted character
/// where conversion succeeds, and the placeholder glyph otherwise.
pub open spec fn spec_convert_gaiji(s: Seq<char>) -> Seq<char> {
    match spec_parse_gaiji(s) {
        GaijiResultM::Unicode(u) => u,
        GaijiResultM::JisConverted { unicode, .. } => unicode,
        GaijiResultM::JisImage { .. } => "〓"@,
        GaijiResultM::Unconvertible => "〓"@,
    }
}

/// Convert a glyph description to plain text, with the placeholder glyph
/// where conversion fails.
pub fn convert_gaiji(description: &str) -> (r: String)
    ensures
        r@ == spec_convert_gaiji(description@),
{
    match parse_gaiji(description) {
        GaijiResult::Unicode(u) => u,
        GaijiResult::JisConverted { unicode, .. } => unicode,
        GaijiResult::JisImage { .. } => String::from_str("〓"),
        GaijiResult::Unconvertible => String::from_str("〓"),
    }
}

} // verus!
