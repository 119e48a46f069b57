//! The plane-row-cell code table: composed characters addressed by a JIS
//! code. This build packages the rows that the accent notation uses and the
//! standalone glyphs the notation names; any other code has no entry.

use vstd::prelude::*;

use crate::parser::content_parser::spec_parse_u32;
use crate::strutil::{chars_subrange, chars_to_string, find_pat, lemma_spec_find_from,
    spec_find, str_to_chars, sub_at};
use crate::parser::content_parser::parse_u32_chars;

verus! {

/// Zero-pad a digit group to width two.
pub open spec fn spec_pad2(s: Seq<char>) -> Seq<char> {
    if s.len() >= 2 {
        s
    } else if s.len() == 1 {
        seq!['0'] + s
    } else {
        seq!['0', '0']
    }
}

/// The three dash-separated groups of a code, where it has exactly three.
pub open spec fn spec_code_groups(s: Seq<char>) -> Option<(Seq<char>, Seq<char>, Seq<char>)> {
    let d1 = spec_find(s, "-"@);
    if d1 < 0 {
        None
    } else {
        let rest1 = s.subrange(d1 + 1, s.len() as int);
        let d2 = spec_find(rest1, "-"@);
        if d2 < 0 {
            None
        } else {
            let rest2 = rest1.subrange(d2 + 1, rest1.len() as int);
            if spec_find(rest2, "-"@) >= 0 {
                None
            } else {
                Some((s.subrange(0, d1), rest1.subrange(0, d2), rest2))
            }
        }
    }
}

/// A code normalized: the row and cell groups zero-padded to width two.
/// A code without exactly three groups is returned unchanged.
pub open spec fn spec_normalize_jis(s: Seq<char>) -> Seq<char> {
    match spec_code_groups(s) {
        Some((p, r, c)) => p + "-"@ + spec_pad2(r) + "-"@ + spec_pad2(c),
        None => s,
    }
}

/// The entry of the packaged table at a plane-row-cell triple.
pub open spec fn spec_jis_entry(t: (u32, u32, u32)) -> Option<Seq<char>> {
    if t == (1u32, 9u32, 23u32) { Some("À"@) } else
    if t == (1u32, 9u32, 24u32) { Some("Á"@) } else
    if t == (1u32, 9u32, 25u32) { Some("Â"@) } else
    if t == (1u32, 9u32, 26u32) { Some("Ã"@) } else
    if t == (1u32, 9u32, 27u32) { Some("Ä"@) } else
    if t == (1u32, 9u32, 28u32) { Some("Ā"@) } else
    if t == (1u32, 9u32, 29u32) { Some("Å"@) } else
    if t == (1u32, 9u32, 30u32) { Some("Ç"@) } else
    if t == (1u32, 9u32, 31u32) { Some("È"@) } else
    if t == (1u32, 9u32, 32u32) { Some("É"@) } else
    if t == (1u32, 9u32, 33u32) { Some("Ê"@) } else
    if t == (1u32, 9u32, 34u32) { Some("Ë"@) } else
    if t == (1u32, 9u32, 35u32) { Some("Ē"@) } else
    if t == (1u32, 9u32, 36u32) { Some("Ì"@) } else
    if t == (1u32, 9u32, 37u32) { Some("Í"@) } else
    if t == (1u32, 9u32, 38u32) { Some("Î"@) } else
    if t == (1u32, 9u32, 39u32) { Some("Ï"@) } else
    if t == (1u32, 9u32, 40u32) { Some("Ī"@) } else
    if t == (1u32, 9u32, 41u32) { Some("Ñ"@) } else
    if t == (1u32, 9u32, 42u32) { Some("Ò"@) } else
    if t == (1u32, 9u32, 43u32) { Some("Ó"@) } else
    if t == (1u32, 9u32, 44u32) { Some("Ô"@) } else
    if t == (1u32, 9u32, 45u32) { Some("Õ"@) } else
    if t == (1u32, 9u32, 46u32) { Some("Ö"@) } else
    if t == (1u32, 9u32, 47u32) { Some("Ō"@) } else
    if t == (1u32, 9u32, 48u32) { Some("Ø"@) } else
    if t == (1u32, 9u32, 49u32) { Some("Ù"@) } else
    if t == (1u32, 9u32, 50u32) { Some("Ú"@) } else
    if t == (1u32, 9u32, 51u32) { Some("Û"@) } else
    if t == (1u32, 9u32, 52u32) { Some("Ü"@) } else
    if t == (1u32, 9u32, 53u32) { Some("Ū"@) } else
    if t == (1u32, 9u32, 54u32) { Some("Ý"@) } else
    if t == (1u32, 9u32, 55u32) { Some("Ÿ"@) } else
    if t == (1u32, 10u32, 1u32) { Some("à"@) } else
    if t == (1u32, 10u32, 2u32) { Some("á"@) } else
    if t == (1u32, 10u32, 3u32) { Some("â"@) } else
    if t == (1u32, 10u32, 4u32) { Some("ã"@) } else
    if t == (1u32, 10u32, 5u32) { Some("ä"@) } else
    if t == (1u32, 10u32, 6u32) { Some("ā"@) } else
    if t == (1u32, 10u32, 7u32) { Some("å"@) } else
    if t == (1u32, 10u32, 8u32) { Some("ç"@) } else
    if t == (1u32, 10u32, 9u32) { Some("è"@) } else
    if t == (1u32, 10u32, 10u32) { Some("é"@) } else
    if t == (1u32, 10u32, 11u32) { Some("ê"@) } else
    if t == (1u32, 10u32, 12u32) { Some("ë"@) } else
    if t == (1u32, 10u32, 13u32) { Some("ē"@) } else
    if t == (1u32, 10u32, 14u32) { Some("ì"@) } else
    if t == (1u32, 10u32, 15u32) { Some("í"@) } else
    if t == (1u32, 10u32, 16u32) { Some("î"@) } else
    if t == (1u32, 10u32, 17u32) { Some("ï"@) } else
    if t == (1u32, 10u32, 18u32) { Some("ī"@) } else
    if t == (1u32, 10u32, 19u32) { Some("ñ"@) } else
    if t == (1u32, 10u32, 20u32) { Some("ò"@) } else
    if t == (1u32, 10u32, 21u32) { Some("ó"@) } else
    if t == (1u32, 10u32, 22u32) { Some("ô"@) } else
    if t == (1u32, 10u32, 23u32) { Some("õ"@) } else
    if t == (1u32, 10u32, 24u32) { Some("ö"@) } else
    if t == (1u32, 10u32, 25u32) { Some("ō"@) } else
    if t == (1u32, 10u32, 26u32) { Some("ø"@) } else
    if t == (1u32, 10u32, 27u32) { Some("ù"@) } else
    if t == (1u32, 10u32, 28u32) { Some("ú"@) } else
    if t == (1u32, 10u32, 29u32) { Some("û"@) } else
    if t == (1u32, 10u32, 30u32) { Some("ü"@) } else
    if t == (1u32, 10u32, 31u32) { Some("ū"@) } else
    if t == (1u32, 10u32, 32u32) { Some("ý"@) } else
    if t == (1u32, 10u32, 33u32) { Some("ÿ"@) } else
    if t == (1u32, 11u32, 1u32) { Some("Æ"@) } else
    if t == (1u32, 11u32, 2u32) { Some("æ"@) } else
    if t == (1u32, 11u32, 3u32) { Some("Œ"@) } else
    if t == (1u32, 11u32, 4u32) { Some("œ"@) } else
    if t == (1u32, 11u32, 5u32) { Some("ß"@) } else
    if t == (1u32, 11u32, 6u32) { Some("¡"@) } else
    if t == (1u32, 11u32, 7u32) { Some("¿"@) } else
    if t == (1u32, 2u32, 22u32) { Some("〻"@) } else
    if t == (1u32, 5u32, 87u32) { Some("カ゚"@) } else
    { None }
}

/// The composed text a code converts to: its groups read as numbers and
/// looked up in the packaged table.
pub open spec fn spec_jis_to_unicode(s: Seq<char>) -> Option<Seq<char>> {
    match spec_code_groups(s) {
        Some((p, r, c)) => match (spec_parse_u32(p), spec_parse_u32(r), spec_parse_u32(c)) {
            (Some(pv), Some(rv), Some(cv)) => spec_jis_entry((pv, rv, cv)),
            _ => None,
        },
        None => None,
    }
}

fn jis_entry(t: (u32, u32, u32)) -> (r: Option<&'static str>)
    ensures
        match r {
            Some(u) => spec_jis_entry(t) == Some(u@),
            None => spec_jis_entry(t) is None,
        },
{
    match t {
        (1, 9, 23) => Some("À"),
        (1, 9, 24) => Some("Á"),
        (1, 9, 25) => Some("Â"),
        (1, 9, 26) => Some("Ã"),
        (1, 9, 27) => Some("Ä"),
        (1, 9, 28) => Some("Ā"),
        (1, 9, 29) => Some("Å"),
        (1, 9, 30) => Some("Ç"),
        (1, 9, 31) => Some("È"),
        (1, 9, 32) => Some("É"),
        (1, 9, 33) => Some("Ê"),
        (1, 9, 34) => Some("Ë"),
        (1, 9, 35) => Some("Ē"),
        (1, 9, 36) => Some("Ì"),
        (1, 9, 37) => Some("Í"),
        (1, 9, 38) => Some("Î"),
        (1, 9, 39) => Some("Ï"),
        (1, 9, 40) => Some("Ī"),
        (1, 9, 41) => Some("Ñ"),
        (1, 9, 42) => Some("Ò"),
        (1, 9, 43) => Some("Ó"),
        (1, 9, 44) => Some("Ô"),
        (1, 9, 45) => Some("Õ"),
        (1, 9, 46) => Some("Ö"),
        (1, 9, 47) => Some("Ō"),
        (1, 9, 48) => Some("Ø"),
        (1, 9, 49) => Some("Ù"),
        (1, 9, 50) => Some("Ú"),
        (1, 9, 51) => Some("Û"),
        (1, 9, 52) => Some("Ü"),
        (1, 9, 53) => Some("Ū"),
        (1, 9, 54) => Some("Ý"),
        (1, 9, 55) => Some("Ÿ"),
        (1, 10, 1) => Some("à"),
        (1, 10, 2) => Some("á"),
        (1, 10, 3) => Some("â"),
        (1, 10, 4) => Some("ã"),
        (1, 10, 5) => Some("ä"),
        (1, 10, 6) => Some("ā"),
        (1, 10, 7) => Some("å"),
        (1, 10, 8) => Some("ç"),
        (1, 10, 9) => Some("è"),
        (1, 10, 10) => Some("é"),
        (1, 10, 11) => Some("ê"),
        (1, 10, 12) => Some("ë"),
        (1, 10, 13) => Some("ē"),
        (1, 10, 14) => Some("ì"),
        (1, 10, 15) => Some("í"),
        (1, 10, 16) => Some("î"),
        (1, 10, 17) => Some("ï"),
        (1, 10, 18) => Some("ī"),
        (1, 10, 19) => Some("ñ"),
        (1, 10, 20) => Some("ò"),
        (1, 10, 21) => Some("ó"),
        (1, 10, 22) => Some("ô"),
        (1, 10, 23) => Some("õ"),
        (1, 10, 24) => Some("ö"),
        (1, 10, 25) => Some("ō"),
        (1, 10, 26) => Some("ø"),
        (1, 10, 27) => Some("ù"),
        (1, 10, 28) => Some("ú"),
        (1, 10, 29) => Some("û"),
        (1, 10, 30) => Some("ü"),
        (1, 10, 31) => Some("ū"),
        (1, 10, 32) => Some("ý"),
        (1, 10, 33) => Some("ÿ"),
        (1, 11, 1) => Some("Æ"),
        (1, 11, 2) => Some("æ"),
        (1, 11, 3) => Some("Œ"),
        (1, 11, 4) => Some("œ"),
        (1, 11, 5) => Some("ß"),
        (1, 11, 6) => Some("¡"),
        (1, 11, 7) => Some("¿"),
        (1, 2, 22) => Some("〻"),
        (1, 5, 87) => Some("カ゚"),
        _ => None,
    }
}

/// The three dash-separated groups of a code held as characters.
pub fn code_groups(v: &Vec<char>) -> (r: Option<(Vec<char>, Vec<char>, Vec<char>)>)
    ensures
        match r {
            Some((p, rr, c)) => spec_code_groups(v@) == Some((p@, rr@, c@)),
            None => spec_code_groups(v@) is None,
        },
{
    proof {
        reveal_strlit("-");
    }
    let dash = str_to_chars("-");
    let n = v.len();
    let d1 = match find_pat(v, &dash) {
        Some(i) => i,
        None => {
            return None;
        },
    };
    proof {
        lemma_spec_find_from(v@, dash@, 0);
    }
    let rest1 = chars_subrange(v, d1 + dash.len(), n);
    let n1 = rest1.len();
    let d2 = match find_pat(&rest1, &dash) {
        Some(i) => i,
        None => {
            return None;
        },
    };
    proof {
        lemma_spec_find_from(rest1@, dash@, 0);
    }
    let rest2 = chars_subrange(&rest1, d2 + dash.len(), n1);
    if find_pat(&rest2, &dash).is_some() {
        return None;
    }
    let p = chars_subrange(v, 0, d1);
    let rr = chars_subrange(&rest1, 0, d2);
    Some((p, rr, rest2))
}

fn pad2(v: &Vec<char>) -> (r: Vec<char>)
    ensures
        r@ == spec_pad2(v@),
{
    if v.len() >= 2 {
        let mut r: Vec<char> = Vec::new();
        let mut i: usize = 0;
        while i < v.len()
            invariant
                i <= v@.len(),
                r@ == v@.subrange(0, i as int),
            decreases v@.len() - i,
        {
            r.push(v[i]);
            i += 1;
            proof {
                assert(r@ =~= v@.subrange(0, i as int));
            }
        }
        proof {
            assert(r@ =~= v@);
        }
        r
    } else if v.len() == 1 {
        let mut r: Vec<char> = Vec::new();
        r.push('0');
        r.push(v[0]);
        proof {
            assert(r@ =~= seq!['0'] + v@);
        }
        r
    } else {
        let mut r: Vec<char> = Vec::new();
        r.push('0');
        r.push('0');
        proof {
            assert(r@ =~= seq!['0', '0']);
        }
        r
    }
}

/// A code with its row and cell groups zero-padded to width two; one
/// without exactly three groups is returned unchanged.
pub fn normalize_jis_code(code: &str) -> (r: String)
    ensures
        r@ == spec_normalize_jis(code@),
{
    let v = str_to_chars(code);
    match code_groups(&v) {
        Some((p, rr, c)) => {
            let mut out = chars_to_string(&p);
            out.append("-");
            let rp = pad2(&rr);
            let rs = chars_to_string(&rp);
            out.append(rs.as_str());
            out.append("-");
            let cp = pad2(&c);
            let cs = chars_to_string(&cp);
            out.append(cs.as_str());
            proof {
                assert(out@ =~= spec_normalize_jis(code@));
            }
            out
        },
        None => chars_to_string(&v),
    }
}

/// The composed text a code converts to, or nothing when the packaged
/// table has no entry for it.
pub fn jis_to_unicode(jis_code: &str) -> (r: Option<String>)
    ensures
        match r {
            Some(u) => spec_jis_to_unicode(jis_code@) == Some(u@),
            None => spec_jis_to_unicode(jis_code@) is None,
        },
{
    let v = str_to_chars(jis_code);
    let (p, rr, c) = match code_groups(&v) {
        Some(t) => t,
        None => {
            return None;
        },
    };
    let pv = match parse_u32_chars(&p) {
        Some(x) => x,
        None => {
            return None;
        },
    };
    let rv = match parse_u32_chars(&rr) {
        Some(x) => x,
        None => {
            return None;
        },
    };
    let cv = match parse_u32_chars(&c) {
        Some(x) => x,
        None => {
            return None;
        },
    };
    match jis_entry((pv, rv, cv)) {
        Some(u) => Some(u.to_owned()),
        None => None,
    }
}

} // verus!
