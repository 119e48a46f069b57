//! Special content directives: images, return marks, and suffix kana.

use vstd::prelude::*;

use crate::parser::command_parser::{opt_cr_model, CommandResult, CommandResultM};
use crate::strutil::{chars_range_to_string, chars_subrange, chars_to_string, ends_with_pat,
    find_pat, is_decimal_ascii, lemma_spec_find_from, lemma_spec_rfind_down, rfind_pat,
    spec_char_digit, spec_digits_value, spec_ends_with, spec_find, spec_rfind, spec_trim,
    str_to_chars, sub_at, trim_chars};

verus! {

/// Whether `c` is one of the return-mark characters.
pub open spec fn spec_is_kaeriten_char(c: char) -> bool {
    c == '一' || c == '二' || c == '三' || c == '四' || c == '上' || c == '中' || c == '下'
        || c == '天' || c == '地' || c == '人' || c == '甲' || c == '乙' || c == '丙' || c == '丁'
        || c == 'レ'
}

/// Whether the text is one to four return-mark characters.
pub open spec fn spec_is_kaeriten(s: Seq<char>) -> bool {
    1 <= s.len() <= 4 && forall|i: int| 0 <= i < s.len() ==> spec_is_kaeriten_char(s[i])
}

/// Whether directive text held as characters is a run of return marks.
pub fn is_kaeriten_chars(v: &Vec<char>) -> (r: bool)
    ensures
        r == spec_is_kaeriten(v@),
{
    if v.len() == 0 || v.len() > 4 {
        return false;
    }
    let mut i: usize = 0;
    while i < v.len()
        invariant
            i <= v@.len(),
            forall|j: int| 0 <= j < i ==> spec_is_kaeriten_char(v@[j]),
        decreases v@.len() - i,
    {
        let c = v[i];
        let ok = c == '一' || c == '二' || c == '三' || c == '四' || c == '上' || c == '中'
            || c == '下' || c == '天' || c == '地' || c == '人' || c == '甲' || c == '乙'
            || c == '丙' || c == '丁' || c == 'レ';
        if !ok {
            return false;
        }
        i += 1;
    }
    true
}

/// Whether directive text is a run of return marks.
pub fn is_kaeriten(content: &str) -> (r: bool)
    ensures
        r == spec_is_kaeriten(content@),
{
    let v = str_to_chars(content);
    is_kaeriten_chars(&v)
}

/// The suffix kana of a parenthesized directive of one to ten characters.
pub open spec fn spec_try_okurigana(s: Seq<char>) -> Option<Seq<char>> {
    if s.len() >= 2 && s.first() == '（' && s.last() == '）' {
        let inner = s.subrange(1, s.len() - 1);
        if 1 <= inner.len() <= 10 {
            Some(inner)
        } else {
            None
        }
    } else {
        None
    }
}

/// The suffix kana, from directive text held as characters.
pub fn try_parse_okurigana_chars(v: &Vec<char>) -> (r: Option<String>)
    ensures
        match r {
            Some(inner) => spec_try_okurigana(v@) == Some(inner@),
            None => spec_try_okurigana(v@) is None,
        },
{
    if v.len() >= 2 && v[0] == '（' && v[v.len() - 1] == '）' {
        let n = v.len();
        if n - 2 >= 1 && n - 2 <= 10 {
            return Some(chars_range_to_string(v, 1, n - 1));
        }
    }
    None
}

/// The suffix kana read from directive text, if it is a parenthesized run
/// of one to ten characters.
pub fn try_parse_okurigana(content: &str) -> (r: Option<String>)
    ensures
        match r {
            Some(inner) => spec_try_okurigana(content@) == Some(inner@),
            None => spec_try_okurigana(content@) is None,
        },
{
    let v = str_to_chars(content);
    try_parse_okurigana_chars(&v)
}

/// Whether the name ends in a known image extension.
pub open spec fn spec_is_image_filename(s: Seq<char>) -> bool {
    spec_ends_with(s, ".png"@) || spec_ends_with(s, ".jpg"@) || spec_ends_with(s, ".gif"@)
}

/// Whether the name ends in a known image extension.
pub fn is_image_filename(filename: &str) -> (r: bool)
    ensures
        r == spec_is_image_filename(filename@),
{
    let v = str_to_chars(filename);
    is_image_filename_chars(&v)
}

/// Whether the name ends in a known image extension.
pub fn is_image_filename_chars(v: &Vec<char>) -> (r: bool)
    ensures
        r == spec_is_image_filename(v@),
{
    ends_with_pat(v, &str_to_chars(".png")) || ends_with_pat(v, &str_to_chars(".jpg"))
        || ends_with_pat(v, &str_to_chars(".gif"))
}

/// The value of `s` read strictly as decimal digits: every character must
/// be an ASCII digit and the value must fit.
pub open spec fn spec_parse_u32(s: Seq<char>) -> Option<u32> {
    if s.len() == 0 || exists|i: int| 0 <= i < s.len() && !is_decimal_ascii(s[i]) {
        None
    } else if spec_digits_value(s) > u32::MAX {
        None
    } else {
        Some(spec_digits_value(s) as u32)
    }
}

proof fn lemma_digits_value_monotone(ds: Seq<char>, i: int)
    requires
        0 <= i <= ds.len(),
        spec_digits_value(ds.subrange(0, i)) > u32::MAX,
        forall|k: int| 0 <= k < ds.len() ==> is_decimal_ascii(#[trigger] ds[k]),
    ensures
        spec_digits_value(ds) > u32::MAX,
    decreases ds.len() - i,
{
    if i < ds.len() {
        let a = ds.subrange(0, i);
        let b = ds.subrange(0, i + 1);
        assert(b.drop_last() =~= a);
        assert(spec_digits_value(b) == spec_digits_value(a) * 10 + spec_char_digit(b.last()));
        assert(spec_char_digit(b.last()) >= 0);
        assert(spec_digits_value(a) * 10 > 42949672950int) by (nonlinear_arith)
            requires
                spec_digits_value(a) > 4294967295int,
        {}
        lemma_digits_value_monotone(ds, i + 1);
    } else {
        assert(ds.subrange(0, i) =~= ds);
    }
}

/// The strict decimal value of the characters of `v`.
pub fn parse_u32_chars(v: &Vec<char>) -> (r: Option<u32>)
    ensures
        r == spec_parse_u32(v@),
{
    if v.len() == 0 {
        return None;
    }
    let ghost s = v@;
    let mut value: u64 = 0;
    let mut i: usize = 0;
    proof {
        assert(s.subrange(0, 0) =~= Seq::<char>::empty());
    }
    while i < v.len()
        invariant
            i <= s.len(),
            s == v@,
            s.len() > 0,
            value <= u32::MAX as u64,
            value == spec_digits_value(s.subrange(0, i as int)),
            forall|k: int| 0 <= k < i ==> is_decimal_ascii(#[trigger] s[k]),
        decreases s.len() - i,
    {
        let c = v[i];
        let ok = c == '0' || c == '1' || c == '2' || c == '3' || c == '4' || c == '5' || c == '6'
            || c == '7' || c == '8' || c == '9';
        if !ok {
            return None;
        }
        let d: u64 = match c {
            '0' => 0,
            '1' => 1,
            '2' => 2,
            '3' => 3,
            '4' => 4,
            '5' => 5,
            '6' => 6,
            '7' => 7,
            '8' => 8,
            _ => 9,
        };
        proof {
            assert(s.subrange(0, i as int + 1).drop_last() =~= s.subrange(0, i as int));
            assert(s.subrange(0, i as int + 1).last() == s[i as int]);
        }
        let next = value * 10 + d;
        if next > u32::MAX as u64 {
            let mut j = i + 1;
            while j < v.len()
                invariant
                    i < j <= s.len(),
                    s == v@,
                    i < s.len(),
                    forall|k: int| 0 <= k < j ==> is_decimal_ascii(#[trigger] s[k]),
                    spec_digits_value(s.subrange(0, i as int + 1)) > u32::MAX,
                decreases s.len() - j,
            {
                let c2 = v[j];
                let ok2 = c2 == '0' || c2 == '1' || c2 == '2' || c2 == '3' || c2 == '4'
                    || c2 == '5' || c2 == '6' || c2 == '7' || c2 == '8' || c2 == '9';
                if !ok2 {
                    return None;
                }
                j += 1;
            }
            proof {
                lemma_digits_value_monotone(s, i as int + 1);
            }
            return None;
        }
        value = next;
        i += 1;
    }
    proof {
        assert(s.subrange(0, s.len() as int) =~= s);
    }
    Some(value as u32)
}

/// The image dimensions named in a `横W×縦H` part.
pub open spec fn spec_image_dims(part: Seq<char>) -> (Option<u32>, Option<u32>) {
    let w = {
        let wp = spec_find(part, "横"@);
        let xp = spec_find(part, "×"@);
        if wp >= 0 && xp >= wp + 1 {
            spec_parse_u32(part.subrange(wp + 1, xp))
        } else {
            None
        }
    };
    let h = {
        let hp = spec_find(part, "縦"@);
        if hp >= 0 {
            spec_parse_u32(spec_drop_nondigits(part.subrange(hp + 1, part.len() as int)))
        } else {
            None
        }
    };
    (w, h)
}

/// `s` with trailing non-digit characters dropped.
pub open spec fn spec_drop_nondigits(s: Seq<char>) -> Seq<char>
    decreases s.len(),
{
    if s.len() == 0 {
        s
    } else if !is_decimal_ascii(s.last()) {
        spec_drop_nondigits(s.drop_last())
    } else {
        s
    }
}

fn drop_nondigits(v: &Vec<char>) -> (r: Vec<char>)
    ensures
        r@ == spec_drop_nondigits(v@),
{
    let mut b: usize = v.len();
    proof {
        assert(v@.subrange(0, v@.len() as int) =~= v@);
    }
    loop
        invariant
            b <= v@.len(),
            spec_drop_nondigits(v@) == spec_drop_nondigits(v@.subrange(0, b as int)),
        decreases b,
    {
        if b == 0 {
            proof {
                assert(v@.subrange(0, 0) =~= Seq::<char>::empty());
            }
            return Vec::new();
        }
        let c = v[b - 1];
        let ok = c == '0' || c == '1' || c == '2' || c == '3' || c == '4' || c == '5' || c == '6'
            || c == '7' || c == '8' || c == '9';
        if ok {
            proof {
                assert(v@.subrange(0, b as int).last() == v@[b as int - 1]);
                assert(spec_drop_nondigits(v@.subrange(0, b as int)) == v@.subrange(0, b as int));
            }
            return chars_subrange(v, 0, b);
        }
        proof {
            assert(v@.subrange(0, b as int).drop_last() =~= v@.subrange(0, b as int - 1));
            assert(v@.subrange(0, b as int).last() == v@[b as int - 1]);
        }
        b -= 1;
    }
}

/// The image command read from directive text ending in the insertion
/// keyword: alt text, a parenthesized file name, and optional dimensions.
pub open spec fn spec_try_image(s: Seq<char>) -> Option<CommandResultM> {
    let body = spec_trim(s.subrange(0, s.len() - "入る"@.len()));
    let ps = spec_rfind(body, "（"@);
    let pe = spec_rfind(body, "）"@);
    if ps < 0 || pe < 0 || pe <= ps {
        None
    } else {
        let info = body.subrange(ps + 1, pe);
        let comma = spec_find(info, "、"@);
        let filename = if comma >= 0 {
            info.subrange(0, comma)
        } else {
            info
        };
        if !spec_is_image_filename(filename) {
            None
        } else {
            let dims = if comma >= 0 {
                let rest = info.subrange(comma + 1, info.len() as int);
                let comma2 = spec_find(rest, "、"@);
                let part = if comma2 >= 0 {
                    rest.subrange(0, comma2)
                } else {
                    rest
                };
                spec_image_dims(part)
            } else {
                (None, None)
            };
            let desc = spec_trim(body.subrange(0, ps));
            let alt = if spec_ends_with(desc, "のキャプション付きの図"@) {
                desc
            } else if desc.len() >= 2 && desc.first() == '（' && desc.last() == '）' {
                desc.subrange(1, desc.len() - 1)
            } else {
                desc
            };
            Some(CommandResultM::Image { filename, alt, width: dims.0, height: dims.1 })
        }
    }
}

/// The image command, from directive text held as characters.
pub fn try_parse_image_chars(v: &Vec<char>) -> (r: Option<CommandResult>)
    requires
        spec_ends_with(v@, "入る"@),
    ensures
        opt_cr_model(r) == spec_try_image(v@),
{
    proof {
        reveal_strlit("（");
        reveal_strlit("）");
        reveal_strlit("、");
    }
    let suffix = str_to_chars("入る");
    let stripped = chars_subrange(v, 0, v.len() - suffix.len());
    let body = trim_chars(&stripped);
    let nb = body.len();
    let ps = match rfind_checked_local(&body, &str_to_chars("（")) {
        Some(i) => i,
        None => {
            return None;
        },
    };
    let pe = match rfind_checked_local(&body, &str_to_chars("）")) {
        Some(i) => i,
        None => {
            return None;
        },
    };
    if pe <= ps {
        return None;
    }
    let info = chars_subrange(&body, ps + 1, pe);
    let ni = info.len();
    let comma = find_checked_local(&info, &str_to_chars("、"));
    let filename = match comma {
        Some(c) => chars_subrange(&info, 0, c),
        None => chars_subrange(&info, 0, ni),
    };
    proof {
        if comma is None {
            assert(info@.subrange(0, info@.len() as int) =~= info@);
        }
    }
    if !is_image_filename_chars(&filename) {
        return None;
    }
    let (width, height) = match comma {
        Some(c) => {
            let rest = chars_subrange(&info, c + 1, ni);
            let nrest = rest.len();
            let part = match find_checked_local(&rest, &str_to_chars("、")) {
                Some(c2) => chars_subrange(&rest, 0, c2),
                None => chars_subrange(&rest, 0, nrest),
            };
            proof {
                if spec_find(rest@, "、"@) < 0 {
                    assert(rest@.subrange(0, rest@.len() as int) =~= rest@);
                }
            }
            image_dims_chars(&part)
        },
        None => (None, None),
    };
    let desc_raw = chars_subrange(&body, 0, ps);
    let desc = trim_chars(&desc_raw);
    let alt: String = if ends_with_pat(&desc, &str_to_chars("のキャプション付きの図")) {
        chars_to_string(&desc)
    } else if desc.len() >= 2 && desc[0] == '（' && desc[desc.len() - 1] == '）' {
        chars_range_to_string(&desc, 1, desc.len() - 1)
    } else {
        chars_to_string(&desc)
    };
    Some(CommandResult::Image { filename: chars_to_string(&filename), alt, width, height })
}

/// The image command read from directive text, if it parses as one.
pub fn try_parse_image(content: &str) -> (r: Option<CommandResult>)
    requires
        spec_ends_with(content@, "入る"@),
    ensures
        opt_cr_model(r) == spec_try_image(content@),
{
    let v = str_to_chars(content);
    try_parse_image_chars(&v)
}

fn image_dims_chars(part: &Vec<char>) -> (r: (Option<u32>, Option<u32>))
    ensures
        r == spec_image_dims(part@),
{
    proof {
        reveal_strlit("横");
        reveal_strlit("×");
        reveal_strlit("縦");
    }
    let np = part.len();
    let width = match find_checked_local(part, &str_to_chars("横")) {
        Some(wp) => match find_checked_local(part, &str_to_chars("×")) {
            Some(xp) => {
                if xp >= wp + 1 {
                    let w = chars_subrange(part, wp + 1, xp);
                    parse_u32_chars(&w)
                } else {
                    None
                }
            },
            None => None,
        },
        None => None,
    };
    let height = match find_checked_local(part, &str_to_chars("縦")) {
        Some(hp) => {
            let h0 = chars_subrange(part, hp + 1, np);
            let h = drop_nondigits(&h0);
            parse_u32_chars(&h)
        },
        None => None,
    };
    (width, height)
}

fn find_checked_local(v: &Vec<char>, p: &Vec<char>) -> (r: Option<usize>)
    ensures
        match r {
            Some(i) => spec_find(v@, p@) == i as int && sub_at(v@, p@, i as int),
            None => spec_find(v@, p@) == -1,
        },
{
    let r = find_pat(v, p);
    proof {
        lemma_spec_find_from(v@, p@, 0);
    }
    r
}

fn rfind_checked_local(v: &Vec<char>, p: &Vec<char>) -> (r: Option<usize>)
    ensures
        match r {
            Some(i) => spec_rfind(v@, p@) == i as int && sub_at(v@, p@, i as int),
            None => spec_rfind(v@, p@) == -1,
        },
{
    let r = rfind_pat(v, p);
    proof {
        lemma_spec_rfind_down(v@, p@, v@.len() - p@.len());
    }
    r
}

} // verus!
