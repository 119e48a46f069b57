//! The accent-decomposition notation: a base character followed by one of
//! the fixed mark characters names a composed Latin character, addressed in
//! the packaged table by its code.

use vstd::prelude::*;

use crate::delimiters::is_accent_mark_char;
use crate::strutil::{chars_subrange, chars_to_string, eq_pat, push_char, str_to_chars};

verus! {

/// Whether `c` is one of the fixed accent-mark characters.
pub fn is_accent_mark(c: char) -> (r: bool)
    ensures
        r == is_accent_mark_char(c),
{
    c == '\'' || c == '`' || c == '^' || c == '~' || c == ':' || c == '&' || c == '_' || c == ','
        || c == '/' || c == '@'
}

/// The packaged accent table: a two- or three-character key maps to the
/// code and the composed text of one entry.
pub open spec fn spec_accent_entry(k: Seq<char>) -> Option<(Seq<char>, Seq<char>)> {
    if k == "A`"@ { Some(("1-09-23"@, "À"@)) } else
    if k == "A'"@ { Some(("1-09-24"@, "Á"@)) } else
    if k == "A^"@ { Some(("1-09-25"@, "Â"@)) } else
    if k == "A~"@ { Some(("1-09-26"@, "Ã"@)) } else
    if k == "A:"@ { Some(("1-09-27"@, "Ä"@)) } else
    if k == "A_"@ { Some(("1-09-28"@, "Ā"@)) } else
    if k == "A&"@ { Some(("1-09-29"@, "Å"@)) } else
    if k == "C,"@ { Some(("1-09-30"@, "Ç"@)) } else
    if k == "E`"@ { Some(("1-09-31"@, "È"@)) } else
    if k == "E'"@ { Some(("1-09-32"@, "É"@)) } else
    if k == "E^"@ { Some(("1-09-33"@, "Ê"@)) } else
    if k == "E:"@ { Some(("1-09-34"@, "Ë"@)) } else
    if k == "E_"@ { Some(("1-09-35"@, "Ē"@)) } else
    if k == "I`"@ { Some(("1-09-36"@, "Ì"@)) } else
    if k == "I'"@ { Some(("1-09-37"@, "Í"@)) } else
    if k == "I^"@ { Some(("1-09-38"@, "Î"@)) } else
    if k == "I:"@ { Some(("1-09-39"@, "Ï"@)) } else
    if k == "I_"@ { Some(("1-09-40"@, "Ī"@)) } else
    if k == "N~"@ { Some(("1-09-41"@, "Ñ"@)) } else
    if k == "O`"@ { Some(("1-09-42"@, "Ò"@)) } else
    if k == "O'"@ { Some(("1-09-43"@, "Ó"@)) } else
    if k == "O^"@ { Some(("1-09-44"@, "Ô"@)) } else
    if k == "O~"@ { Some(("1-09-45"@, "Õ"@)) } else
    if k == "O:"@ { Some(("1-09-46"@, "Ö"@)) } else
    if k == "O_"@ { Some(("1-09-47"@, "Ō"@)) } else
    if k == "O/"@ { Some(("1-09-48"@, "Ø"@)) } else
    if k == "U`"@ { Some(("1-09-49"@, "Ù"@)) } else
    if k == "U'"@ { Some(("1-09-50"@, "Ú"@)) } else
    if k == "U^"@ { Some(("1-09-51"@, "Û"@)) } else
    if k == "U:"@ { Some(("1-09-52"@, "Ü"@)) } else
    if k == "U_"@ { Some(("1-09-53"@, "Ū"@)) } else
    if k == "Y'"@ { Some(("1-09-54"@, "Ý"@)) } else
    if k == "Y:"@ { Some(("1-09-55"@, "Ÿ"@)) } else
    if k == "a`"@ { Some(("1-10-01"@, "à"@)) } else
    if k == "a'"@ { Some(("1-10-02"@, "á"@)) } else
    if k == "a^"@ { Some(("1-10-03"@, "â"@)) } else
    if k == "a~"@ { Some(("1-10-04"@, "ã"@)) } else
    if k == "a:"@ { Some(("1-10-05"@, "ä"@)) } else
    if k == "a_"@ { Some(("1-10-06"@, "ā"@)) } else
    if k == "a&"@ { Some(("1-10-07"@, "å"@)) } else
    if k == "c,"@ { Some(("1-10-08"@, "ç"@)) } else
    if k == "e`"@ { Some(("1-10-09"@, "è"@)) } else
    if k == "e'"@ { Some(("1-10-10"@, "é"@)) } else
    if k == "e^"@ { Some(("1-10-11"@, "ê"@)) } else
    if k == "e:"@ { Some(("1-10-12"@, "ë"@)) } else
    if k == "e_"@ { Some(("1-10-13"@, "ē"@)) } else
    if k == "i`"@ { Some(("1-10-14"@, "ì"@)) } else
    if k == "i'"@ { Some(("1-10-15"@, "í"@)) } else
    if k == "i^"@ { Some(("1-10-16"@, "î"@)) } else
    if k == "i:"@ { Some(("1-10-17"@, "ï"@)) } else
    if k == "i_"@ { Some(("1-10-18"@, "ī"@)) } else
    if k == "n~"@ { Some(("1-10-19"@, "ñ"@)) } else
    if k == "o`"@ { Some(("1-10-20"@, "ò"@)) } else
    if k == "o'"@ { Some(("1-10-21"@, "ó"@)) } else
    if k == "o^"@ { Some(("1-10-22"@, "ô"@)) } else
    if k == "o~"@ { Some(("1-10-23"@, "õ"@)) } else
    if k == "o:"@ { Some(("1-10-24"@, "ö"@)) } else
    if k == "o_"@ { Some(("1-10-25"@, "ō"@)) } else
    if k == "o/"@ { Some(("1-10-26"@, "ø"@)) } else
    if k == "u`"@ { Some(("1-10-27"@, "ù"@)) } else
    if k == "u'"@ { Some(("1-10-28"@, "ú"@)) } else
    if k == "u^"@ { Some(("1-10-29"@, "û"@)) } else
    if k == "u:"@ { Some(("1-10-30"@, "ü"@)) } else
    if k == "u_"@ { Some(("1-10-31"@, "ū"@)) } else
    if k == "y'"@ { Some(("1-10-32"@, "ý"@)) } else
    if k == "y:"@ { Some(("1-10-33"@, "ÿ"@)) } else
    if k == "AE&"@ { Some(("1-11-01"@, "Æ"@)) } else
    if k == "ae&"@ { Some(("1-11-02"@, "æ"@)) } else
    if k == "OE&"@ { Some(("1-11-03"@, "Œ"@)) } else
    if k == "oe&"@ { Some(("1-11-04"@, "œ"@)) } else
    if k == "s&"@ { Some(("1-11-05"@, "ß"@)) } else
    if k == "!@"@ { Some(("1-11-06"@, "¡"@)) } else
    if k == "?@"@ { Some(("1-11-07"@, "¿"@)) } else
    { None }
}

/// The table entry for a key, as code and composed text.
fn accent_entry(k: &Vec<char>) -> (r: Option<(String, String)>)
    ensures
        match r {
            Some(e) => spec_accent_entry(k@) == Some((e.0@, e.1@)),
            None => spec_accent_entry(k@) is None,
        },
{
    if eq_pat(k, &str_to_chars("A`")) {
        return Some((String::from_str("1-09-23"), String::from_str("À")));
    }
    if eq_pat(k, &str_to_chars("A'")) {
        return Some((String::from_str("1-09-24"), String::from_str("Á")));
    }
    if eq_pat(k, &str_to_chars("A^")) {
        return Some((String::from_str("1-09-25"), String::from_str("Â")));
    }
    if eq_pat(k, &str_to_chars("A~")) {
        return Some((String::from_str("1-09-26"), String::from_str("Ã")));
    }
    if eq_pat(k, &str_to_chars("A:")) {
        return Some((String::from_str("1-09-27"), String::from_str("Ä")));
    }
    if eq_pat(k, &str_to_chars("A_")) {
        return Some((String::from_str("1-09-28"), String::from_str("Ā")));
    }
    if eq_pat(k, &str_to_chars("A&")) {
        return Some((String::from_str("1-09-29"), String::from_str("Å")));
    }
    if eq_pat(k, &str_to_chars("C,")) {
        return Some((String::from_str("1-09-30"), String::from_str("Ç")));
    }
    if eq_pat(k, &str_to_chars("E`")) {
        return Some((String::from_str("1-09-31"), String::from_str("È")));
    }
    if eq_pat(k, &str_to_chars("E'")) {
        return Some((String::from_str("1-09-32"), String::from_str("É")));
    }
    if eq_pat(k, &str_to_chars("E^")) {
        return Some((String::from_str("1-09-33"), String::from_str("Ê")));
    }
    if eq_pat(k, &str_to_chars("E:")) {
        return Some((String::from_str("1-09-34"), String::from_str("Ë")));
    }
    if eq_pat(k, &str_to_chars("E_")) {
        return Some((String::from_str("1-09-35"), String::from_str("Ē")));
    }
    if eq_pat(k, &str_to_chars("I`")) {
        return Some((String::from_str("1-09-36"), String::from_str("Ì")));
    }
    if eq_pat(k, &str_to_chars("I'")) {
        return Some((String::from_str("1-09-37"), String::from_str("Í")));
    }
    if eq_pat(k, &str_to_chars("I^")) {
        return Some((String::from_str("1-09-38"), String::from_str("Î")));
    }
    if eq_pat(k, &str_to_chars("I:")) {
        return Some((String::from_str("1-09-39"), String::from_str("Ï")));
    }
    if eq_pat(k, &str_to_chars("I_")) {
        return Some((String::from_str("1-09-40"), String::from_str("Ī")));
    }
    if eq_pat(k, &str_to_chars("N~")) {
        return Some((String::from_str("1-09-41"), String::from_str("Ñ")));
    }
    if eq_pat(k, &str_to_chars("O`")) {
        return Some((String::from_str("1-09-42"), String::from_str("Ò")));
    }
    if eq_pat(k, &str_to_chars("O'")) {
        return Some((String::from_str("1-09-43"), String::from_str("Ó")));
    }
    if eq_pat(k, &str_to_chars("O^")) {
        return Some((String::from_str("1-09-44"), String::from_str("Ô")));
    }
    if eq_pat(k, &str_to_chars("O~")) {
        return Some((String::from_str("1-09-45"), String::from_str("Õ")));
    }
    if eq_pat(k, &str_to_chars("O:")) {
        return Some((String::from_str("1-09-46"), String::from_str("Ö")));
    }
    if eq_pat(k, &str_to_chars("O_")) {
        return Some((String::from_str("1-09-47"), String::from_str("Ō")));
    }
    if eq_pat(k, &str_to_chars("O/")) {
        return Some((String::from_str("1-09-48"), String::from_str("Ø")));
    }
    if eq_pat(k, &str_to_chars("U`")) {
        return Some((String::from_str("1-09-49"), String::from_str("Ù")));
    }
    if eq_pat(k, &str_to_chars("U'")) {
        return Some((String::from_str("1-09-50"), String::from_str("Ú")));
    }
    if eq_pat(k, &str_to_chars("U^")) {
        return Some((String::from_str("1-09-51"), String::from_str("Û")));
    }
    if eq_pat(k, &str_to_chars("U:")) {
        return Some((String::from_str("1-09-52"), String::from_str("Ü")));
    }
    if eq_pat(k, &str_to_chars("U_")) {
        return Some((String::from_str("1-09-53"), String::from_str("Ū")));
    }
    if eq_pat(k, &str_to_chars("Y'")) {
        return Some((String::from_str("1-09-54"), String::from_str("Ý")));
    }
    if eq_pat(k, &str_to_chars("Y:")) {
        return Some((String::from_str("1-09-55"), String::from_str("Ÿ")));
    }
    if eq_pat(k, &str_to_chars("a`")) {
        return Some((String::from_str("1-10-01"), String::from_str("à")));
    }
    if eq_pat(k, &str_to_chars("a'")) {
        return Some((String::from_str("1-10-02"), String::from_str("á")));
    }
    if eq_pat(k, &str_to_chars("a^")) {
        return Some((String::from_str("1-10-03"), String::from_str("â")));
    }
    if eq_pat(k, &str_to_chars("a~")) {
        return Some((String::from_str("1-10-04"), String::from_str("ã")));
    }
    if eq_pat(k, &str_to_chars("a:")) {
        return Some((String::from_str("1-10-05"), String::from_str("ä")));
    }
    if eq_pat(k, &str_to_chars("a_")) {
        return Some((String::from_str("1-10-06"), String::from_str("ā")));
    }
    if eq_pat(k, &str_to_chars("a&")) {
        return Some((String::from_str("1-10-07"), String::from_str("å")));
    }
    if eq_pat(k, &str_to_chars("c,")) {
        return Some((String::from_str("1-10-08"), String::from_str("ç")));
    }
    if eq_pat(k, &str_to_chars("e`")) {
        return Some((String::from_str("1-10-09"), String::from_str("è")));
    }
    if eq_pat(k, &str_to_chars("e'")) {
        return Some((String::from_str("1-10-10"), String::from_str("é")));
    }
    if eq_pat(k, &str_to_chars("e^")) {
        return Some((String::from_str("1-10-11"), String::from_str("ê")));
    }
    if eq_pat(k, &str_to_chars("e:")) {
        return Some((String::from_str("1-10-12"), String::from_str("ë")));
    }
    if eq_pat(k, &str_to_chars("e_")) {
        return Some((String::from_str("1-10-13"), String::from_str("ē")));
    }
    if eq_pat(k, &str_to_chars("i`")) {
        return Some((String::from_str("1-10-14"), String::from_str("ì")));
    }
    if eq_pat(k, &str_to_chars("i'")) {
        return Some((String::from_str("1-10-15"), String::from_str("í")));
    }
    if eq_pat(k, &str_to_chars("i^")) {
        return Some((String::from_str("1-10-16"), String::from_str("î")));
    }
    if eq_pat(k, &str_to_chars("i:")) {
        return Some((String::from_str("1-10-17"), String::from_str("ï")));
    }
    if eq_pat(k, &str_to_chars("i_")) {
        return Some((String::from_str("1-10-18"), String::from_str("ī")));
    }
    if eq_pat(k, &str_to_chars("n~")) {
        return Some((String::from_str("1-10-19"), String::from_str("ñ")));
    }
    if eq_pat(k, &str_to_chars("o`")) {
        return Some((String::from_str("1-10-20"), String::from_str("ò")));
    }
    if eq_pat(k, &str_to_chars("o'")) {
        return Some((String::from_str("1-10-21"), String::from_str("ó")));
    }
    if eq_pat(k, &str_to_chars("o^")) {
        return Some((String::from_str("1-10-22"), String::from_str("ô")));
    }
    if eq_pat(k, &str_to_chars("o~")) {
        return Some((String::from_str("1-10-23"), String::from_str("õ")));
    }
    if eq_pat(k, &str_to_chars("o:")) {
        return Some((String::from_str("1-10-24"), String::from_str("ö")));
    }
    if eq_pat(k, &str_to_chars("o_")) {
        return Some((String::from_str("1-10-25"), String::from_str("ō")));
    }
    if eq_pat(k, &str_to_chars("o/")) {
        return Some((String::from_str("1-10-26"), String::from_str("ø")));
    }
    if eq_pat(k, &str_to_chars("u`")) {
        return Some((String::from_str("1-10-27"), String::from_str("ù")));
    }
    if eq_pat(k, &str_to_chars("u'")) {
        return Some((String::from_str("1-10-28"), String::from_str("ú")));
    }
    if eq_pat(k, &str_to_chars("u^")) {
        return Some((String::from_str("1-10-29"), String::from_str("û")));
    }
    if eq_pat(k, &str_to_chars("u:")) {
        return Some((String::from_str("1-10-30"), String::from_str("ü")));
    }
    if eq_pat(k, &str_to_chars("u_")) {
        return Some((String::from_str("1-10-31"), String::from_str("ū")));
    }
    if eq_pat(k, &str_to_chars("y'")) {
        return Some((String::from_str("1-10-32"), String::from_str("ý")));
    }
    if eq_pat(k, &str_to_chars("y:")) {
        return Some((String::from_str("1-10-33"), String::from_str("ÿ")));
    }
    if eq_pat(k, &str_to_chars("AE&")) {
        return Some((String::from_str("1-11-01"), String::from_str("Æ")));
    }
    if eq_pat(k, &str_to_chars("ae&")) {
        return Some((String::from_str("1-11-02"), String::from_str("æ")));
    }
    if eq_pat(k, &str_to_chars("OE&")) {
        return Some((String::from_str("1-11-03"), String::from_str("Œ")));
    }
    if eq_pat(k, &str_to_chars("oe&")) {
        return Some((String::from_str("1-11-04"), String::from_str("œ")));
    }
    if eq_pat(k, &str_to_chars("s&")) {
        return Some((String::from_str("1-11-05"), String::from_str("ß")));
    }
    if eq_pat(k, &str_to_chars("!@")) {
        return Some((String::from_str("1-11-06"), String::from_str("¡")));
    }
    if eq_pat(k, &str_to_chars("?@")) {
        return Some((String::from_str("1-11-07"), String::from_str("¿")));
    }
    None
}

/// The text with every accent-decomposition key replaced by its composed
/// character: three-character ligature keys are tried before two-character
/// keys, and unmatched characters pass through unchanged.
pub open spec fn spec_convert_accent(s: Seq<char>, i: int) -> Seq<char>
    decreases s.len() - i,
    when 0 <= i
{
    if i >= s.len() {
        Seq::empty()
    } else if i + 2 < s.len() && is_accent_mark_char(s[i + 2]) && spec_accent_entry(
        s.subrange(i, i + 3),
    ) is Some {
        (spec_accent_entry(s.subrange(i, i + 3))->0).1 + spec_convert_accent(s, i + 3)
    } else if i + 1 < s.len() && is_accent_mark_char(s[i + 1]) && spec_accent_entry(
        s.subrange(i, i + 2),
    ) is Some {
        (spec_accent_entry(s.subrange(i, i + 2))->0).1 + spec_convert_accent(s, i + 2)
    } else {
        seq![s[i]] + spec_convert_accent(s, i + 1)
    }
}

/// Replace every accent-decomposition key in the text by its composed
/// character.
pub fn convert_accent(input: &str) -> (r: String)
    ensures
        r@ == spec_convert_accent(input@, 0),
{
    let chars = str_to_chars(input);
    let n = chars.len();
    let mut r = String::new();
    let mut i: usize = 0;
    while i < n
        invariant
            i <= n,
            n == chars@.len(),
            chars@ == input@,
            r@ + spec_convert_accent(input@, i as int) == spec_convert_accent(input@, 0),
        decreases n - i,
    {
        if n - i > 2 && is_accent_mark(chars[i + 2]) {
            let key = chars_subrange(&chars, i, i + 3);
            if let Some(e) = accent_entry(&key) {
                r.append(e.1.as_str());
                i += 3;
                proof {
                    assert(r@ + spec_convert_accent(input@, i as int) =~= spec_convert_accent(
                        input@,
                        0,
                    ));
                }
                continue;
            }
        }
        if n - i > 1 && is_accent_mark(chars[i + 1]) {
            let key = chars_subrange(&chars, i, i + 2);
            if let Some(e) = accent_entry(&key) {
                r.append(e.1.as_str());
                i += 2;
                proof {
                    assert(r@ + spec_convert_accent(input@, i as int) =~= spec_convert_accent(
                        input@,
                        0,
                    ));
                }
                continue;
            }
        }
        push_char(&mut r, chars[i]);
        i += 1;
        proof {
            assert(r@ + spec_convert_accent(input@, i as int) =~= spec_convert_accent(
                input@,
                0,
            ));
        }
    }
    proof {
        assert(r@ =~= spec_convert_accent(input@, 0));
    }
    r
}

/// Mathematical model of one piece of a parsed accent run.
#[verifier::ext_equal]
pub enum AccentPartM {
    /// Characters that matched no key.
    Text(Seq<char>),
    /// One composed character, with its code and descriptive name.
    Accent { jis_code: Seq<char>, name: Seq<char>, unicode: Seq<char> },
}

/// One piece of a parsed accent run.
#[derive(Debug, Clone, PartialEq)]
pub enum AccentPart {
    /// Characters that matched no key.
    Text(String),
    /// One composed character.
    Accent {
        /// Code of the composed character.
        jis_code: String,
        /// Descriptive name.
        name: String,
        /// The composed text.
        unicode: String,
    },
}

impl AccentPart {
    /// The model of this piece.
    pub open spec fn model(self) -> AccentPartM {
        match self {
            AccentPart::Text(s) => AccentPartM::Text(s@),
            AccentPart::Accent { jis_code, name, unicode } => AccentPartM::Accent {
                jis_code: jis_code@,
                name: name@,
                unicode: unicode@,
            },
        }
    }
}

/// The models of a sequence of pieces, in order.
pub open spec fn parts_model(ps: Seq<AccentPart>) -> Seq<AccentPartM>
    decreases ps,
{
    if ps.len() == 0 {
        Seq::empty()
    } else {
        parts_model(ps.drop_last()).push(ps.last().model())
    }
}

/// `parts_model` maps the sequence pointwise.
pub broadcast proof fn lemma_parts_model(ps: Seq<AccentPart>)
    ensures
        #![trigger parts_model(ps)]
        parts_model(ps).len() == ps.len(),
        forall|i: int| 0 <= i < ps.len() ==> parts_model(ps)[i] == ps[i].model(),
    decreases ps.len(),
{
    if ps.len() > 0 {
        lemma_parts_model(ps.drop_last());
    }
}

/// The descriptive name of a key: the mark's name, the base letter in upper
/// case with a lower-case tag where the base was lower case, or a ligature
/// tag for three-character keys.
pub open spec fn spec_accent_name(k: Seq<char>) -> Seq<char> {
    if k.len() == 2 {
        let mark = spec_mark_name(k[1]);
        if spec_is_ascii_lower(k[0]) {
            mark + "付き"@ + seq![spec_ascii_upper(k[0])] + "小文字"@
        } else {
            mark + "付き"@ + seq![k[0]]
        }
    } else if k.len() == 3 {
        if spec_is_ascii_lower(k[0]) {
            "リガチャ小文字"@
        } else {
            "リガチャ大文字"@
        }
    } else {
        k
    }
}

/// The Japanese name of a mark character.
pub open spec fn spec_mark_name(c: char) -> Seq<char> {
    if c == '\'' { "アキュートアクセント"@ }
    else if c == '`' { "グレーブアクセント"@ }
    else if c == '^' { "サーカムフレックスアクセント"@ }
    else if c == ':' { "ダイエレシス"@ }
    else if c == '~' { "チルダ"@ }
    else if c == '_' { "マクロン"@ }
    else if c == ',' { "セディラ"@ }
    else { "アクセント"@ }
}

/// Whether `c` is a lower-case ASCII letter.
pub open spec fn spec_is_ascii_lower(c: char) -> bool {
    c == 'a' || c == 'b' || c == 'c' || c == 'd' || c == 'e' || c == 'f' || c == 'g' || c == 'h'
        || c == 'i' || c == 'j' || c == 'k' || c == 'l' || c == 'm' || c == 'n' || c == 'o'
        || c == 'p' || c == 'q' || c == 'r' || c == 's' || c == 't' || c == 'u' || c == 'v'
        || c == 'w' || c == 'x' || c == 'y' || c == 'z'
}

/// The upper-case form of a lower-case ASCII letter; any other character is
/// unchanged.
pub open spec fn spec_ascii_upper(c: char) -> char {
    if c == 'a' { 'A' } else if c == 'b' { 'B' } else if c == 'c' { 'C' }
    else if c == 'd' { 'D' } else if c == 'e' { 'E' } else if c == 'f' { 'F' }
    else if c == 'g' { 'G' } else if c == 'h' { 'H' } else if c == 'i' { 'I' }
    else if c == 'j' { 'J' } else if c == 'k' { 'K' } else if c == 'l' { 'L' }
    else if c == 'm' { 'M' } else if c == 'n' { 'N' } else if c == 'o' { 'O' }
    else if c == 'p' { 'P' } else if c == 'q' { 'Q' } else if c == 'r' { 'R' }
    else if c == 's' { 'S' } else if c == 't' { 'T' } else if c == 'u' { 'U' }
    else if c == 'v' { 'V' } else if c == 'w' { 'W' } else if c == 'x' { 'X' }
    else if c == 'y' { 'Y' } else if c == 'z' { 'Z' } else { c }
}

fn is_ascii_lower_char(c: char) -> (r: bool)
    ensures
        r == spec_is_ascii_lower(c),
{
    'a' <= c && c <= 'z'
}

fn ascii_upper_char(c: char) -> (r: char)
    ensures
        r == spec_ascii_upper(c),
{
    match c {
        'a' => 'A', 'b' => 'B', 'c' => 'C', 'd' => 'D', 'e' => 'E', 'f' => 'F', 'g' => 'G',
        'h' => 'H', 'i' => 'I', 'j' => 'J', 'k' => 'K', 'l' => 'L', 'm' => 'M', 'n' => 'N',
        'o' => 'O', 'p' => 'P', 'q' => 'Q', 'r' => 'R', 's' => 'S', 't' => 'T', 'u' => 'U',
        'v' => 'V', 'w' => 'W', 'x' => 'X', 'y' => 'Y', 'z' => 'Z', other => other,
    }
}

fn mark_name(c: char) -> (r: &'static str)
    ensures
        r@ == spec_mark_name(c),
{
    match c {
        '\'' => "アキュートアクセント",
        '`' => "グレーブアクセント",
        '^' => "サーカムフレックスアクセント",
        ':' => "ダイエレシス",
        '~' => "チルダ",
        '_' => "マクロン",
        ',' => "セディラ",
        _ => "アクセント",
    }
}

/// The descriptive name of a key.
pub fn accent_name(key: &Vec<char>) -> (r: String)
    ensures
        r@ == spec_accent_name(key@),
{
    if key.len() == 2 {
        let mut r = String::from_str(mark_name(key[1]));
        r.append("付き");
        if is_ascii_lower_char(key[0]) {
            push_char(&mut r, ascii_upper_char(key[0]));
            r.append("小文字");
        } else {
            push_char(&mut r, key[0]);
        }
        proof {
            assert(r@ =~= spec_accent_name(key@));
        }
        r
    } else if key.len() == 3 {
        if is_ascii_lower_char(key[0]) {
            String::from_str("リガチャ小文字")
        } else {
            String::from_str("リガチャ大文字")
        }
    } else {
        chars_to_string(key)
    }
}

/// The pieces of an accent run: the keys recognized left to right, each
/// replaced by its entry; unmatched characters collect into text pieces.
pub open spec fn spec_parse_accent(s: Seq<char>, i: int, buf: Seq<char>) -> Seq<AccentPartM>
    decreases s.len() - i,
    when 0 <= i
{
    if i >= s.len() {
        if buf.len() == 0 {
            Seq::empty()
        } else {
            seq![AccentPartM::Text(buf)]
        }
    } else if i + 2 < s.len() && is_accent_mark_char(s[i + 2]) && spec_accent_entry(
        s.subrange(i, i + 3),
    ) is Some {
        let k = s.subrange(i, i + 3);
        let e = spec_accent_entry(k)->0;
        let piece = AccentPartM::Accent { jis_code: e.0, name: spec_accent_name(k), unicode: e.1 };
        if buf.len() == 0 {
            seq![piece] + spec_parse_accent(s, i + 3, Seq::empty())
        } else {
            seq![AccentPartM::Text(buf), piece] + spec_parse_accent(s, i + 3, Seq::empty())
        }
    } else if i + 1 < s.len() && is_accent_mark_char(s[i + 1]) && spec_accent_entry(
        s.subrange(i, i + 2),
    ) is Some {
        let k = s.subrange(i, i + 2);
        let e = spec_accent_entry(k)->0;
        let piece = AccentPartM::Accent { jis_code: e.0, name: spec_accent_name(k), unicode: e.1 };
        if buf.len() == 0 {
            seq![piece] + spec_parse_accent(s, i + 2, Seq::empty())
        } else {
            seq![AccentPartM::Text(buf), piece] + spec_parse_accent(s, i + 2, Seq::empty())
        }
    } else {
        spec_parse_accent(s, i + 1, buf.push(s[i]))
    }
}

/// Parse an accent run into pieces that keep each entry's code.
pub fn parse_accent(input: &str) -> (r: Vec<AccentPart>)
    ensures
        parts_model(r@) == spec_parse_accent(input@, 0, Seq::empty()),
{
    let chars = str_to_chars(input);
    let n = chars.len();
    let mut r: Vec<AccentPart> = Vec::new();
    let mut buf: Vec<char> = Vec::new();
    let mut i: usize = 0;
    while i < n
        invariant
            i <= n,
            n == chars@.len(),
            chars@ == input@,
            parts_model(r@) + spec_parse_accent(input@, i as int, buf@) == spec_parse_accent(
                input@,
                0,
                Seq::empty(),
            ),
        decreases n - i,
    {
        let mut matched: Option<(usize, (String, String), Vec<char>)> = None;
        if n - i > 2 && is_accent_mark(chars[i + 2]) {
            let key = chars_subrange(&chars, i, i + 3);
            if let Some(e) = accent_entry(&key) {
                matched = Some((3, e, key));
            }
        }
        if matched.is_none() && n - i > 1 && is_accent_mark(chars[i + 1]) {
            let key = chars_subrange(&chars, i, i + 2);
            if let Some(e) = accent_entry(&key) {
                matched = Some((2, e, key));
            }
        }
        match matched {
            Some((klen, e, key)) => {
                let name = accent_name(&key);
                let piece = AccentPart::Accent { jis_code: e.0, name, unicode: e.1 };
                let ghost piece_m = piece.model();
                let ghost old_r = r@;
                let ghost old_buf = buf@;
                if buf.len() > 0 {
                    let text = AccentPart::Text(chars_to_string(&buf));
                    r.push(text);
                    buf = Vec::new();
                }
                r.push(piece);
                buf = Vec::new();
                i += klen;
                proof {
                    lemma_parts_model(old_r);
                    lemma_parts_model(r@);
                    if old_buf.len() == 0 {
                        assert(parts_model(r@) =~= parts_model(old_r) + seq![piece_m]);
                    } else {
                        assert(parts_model(r@) =~= parts_model(old_r) + seq![
                            AccentPartM::Text(old_buf),
                            piece_m,
                        ]);
                    }
                    assert(parts_model(r@) + spec_parse_accent(input@, i as int, buf@)
                        =~= parts_model(old_r) + spec_parse_accent(
                        input@,
                        i as int - klen,
                        old_buf,
                    ));
                }
            },
            None => {
                buf.push(chars[i]);
                i += 1;
            },
        }
    }
    if buf.len() > 0 {
        let ghost old_r = r@;
        let ghost old_buf = buf@;
        let text = AccentPart::Text(chars_to_string(&buf));
        r.push(text);
        proof {
            lemma_parts_model(old_r);
            lemma_parts_model(r@);
            assert(parts_model(r@) =~= parts_model(old_r) + seq![AccentPartM::Text(old_buf)]);
            assert(parts_model(r@) =~= spec_parse_accent(input@, 0, Seq::empty()));
        }
    } else {
        proof {
            assert(parts_model(r@) =~= spec_parse_accent(input@, 0, Seq::empty()));
        }
    }
    r
}

} // verus!
