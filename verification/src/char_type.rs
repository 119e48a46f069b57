//! Character classification.
//!
//! Ruby base text is recovered by scanning backwards over characters of one
//! class, so every character is assigned exactly one class: hiragana,
//! katakana, fullwidth letters and digits, halfwidth letters and digits, CJK
//! ideographs (plus a fixed set of ideograph-like symbols), halfwidth
//! terminal punctuation, or the catch-all class.

use vstd::prelude::*;

verus! {

/// Semantic class of a single character.
#[derive(Debug, Clone, Copy, PartialEq, Eq, Hash, Structural)]
pub enum CharType {
    /// Hiragana, including the iteration marks.
    Hiragana,
    /// Katakana, including the long-vowel and iteration marks.
    Katakana,
    /// Fullwidth alphanumerics, Greek and Cyrillic letters, a few symbols.
    Zenkaku,
    /// Halfwidth alphanumerics and a few symbols.
    Hankaku,
    /// CJK ideographs and ideograph-like symbols.
    Kanji,
    /// Halfwidth terminal punctuation.
    HankakuTerminate,
    /// Everything else (kana punctuation, brackets, and so on).
    Else,
}

/// Hiragana range plus the hiragana iteration marks.
pub open spec fn is_hiragana_char(c: char) -> bool {
    (0x3041 <= c as u32 && c as u32 <= 0x3093) || c as u32 == 0x309D || c as u32 == 0x309E
}

/// Katakana range plus long-vowel mark, iteration marks and VU.
pub open spec fn is_katakana_char(c: char) -> bool {
    (0x30A1 <= c as u32 && c as u32 <= 0x30F3) || c as u32 == 0x30FC || c as u32 == 0x30FD
        || c as u32 == 0x30FE || c as u32 == 0x30F4
}

/// Fullwidth digits and Latin letters, Greek, Cyrillic, and a small set of
/// fullwidth symbols.
pub open spec fn is_zenkaku_char(c: char) -> bool {
    (0xFF10 <= c as u32 && c as u32 <= 0xFF19) || (0xFF21 <= c as u32 && c as u32 <= 0xFF3A)
        || (0xFF41 <= c as u32 && c as u32 <= 0xFF5A) || (0x0391 <= c as u32 && c as u32 <= 0x03A9)
        || (0x03B1 <= c as u32 && c as u32 <= 0x03C9) || (0x0410 <= c as u32 && c as u32 <= 0x042F)
        || (0x0430 <= c as u32 && c as u32 <= 0x044F) || c as u32 == 0x2212 || c as u32 == 0xFF06
        || c as u32 == 0x2019 || c as u32 == 0xFF0C || c as u32 == 0xFF0E
}

/// Halfwidth Latin letters, ASCII digits, and `# - & ' ,`.
pub open spec fn is_hankaku_char(c: char) -> bool {
    (0x41 <= c as u32 && c as u32 <= 0x5A) || (0x61 <= c as u32 && c as u32 <= 0x7A)
        || (0x30 <= c as u32 && c as u32 <= 0x39) || c as u32 == 0x23 || c as u32 == 0x2D
        || c as u32 == 0x26 || c as u32 == 0x27 || c as u32 == 0x2C
}

/// CJK unified ideographs plus a fixed set of ideograph-like symbols.
pub open spec fn is_kanji_char(c: char) -> bool {
    (0x4E00 <= c as u32 && c as u32 <= 0x9FFF) || c as u32 == 0x3005 || c as u32 == 0x203B
        || c as u32 == 0x3006 || c as u32 == 0x3007 || c as u32 == 0x30F6
}

/// Halfwidth terminal punctuation: `. ; " ? ! )`.
pub open spec fn is_hankaku_terminate_char(c: char) -> bool {
    c as u32 == 0x2E || c as u32 == 0x3B || c as u32 == 0x22 || c as u32 == 0x3F
        || c as u32 == 0x21 || c as u32 == 0x29
}

/// Whether `c` belongs to the class `t` (the catch-all class holds exactly
/// the characters outside every other class).
pub open spec fn char_in_class(c: char, t: CharType) -> bool {
    match t {
        CharType::Hiragana => is_hiragana_char(c),
        CharType::Katakana => is_katakana_char(c),
        CharType::Zenkaku => is_zenkaku_char(c),
        CharType::Hankaku => is_hankaku_char(c),
        CharType::Kanji => is_kanji_char(c),
        CharType::HankakuTerminate => is_hankaku_terminate_char(c),
        CharType::Else => !is_hiragana_char(c) && !is_katakana_char(c) && !is_zenkaku_char(c)
            && !is_hankaku_char(c) && !is_kanji_char(c) && !is_hankaku_terminate_char(c),
    }
}

/// The class assigned to `c`.
pub open spec fn spec_classify(c: char) -> CharType {
    if is_hiragana_char(c) {
        CharType::Hiragana
    } else if is_katakana_char(c) {
        CharType::Katakana
    } else if is_zenkaku_char(c) {
        CharType::Zenkaku
    } else if is_hankaku_char(c) {
        CharType::Hankaku
    } else if is_kanji_char(c) {
        CharType::Kanji
    } else if is_hankaku_terminate_char(c) {
        CharType::HankakuTerminate
    } else {
        CharType::Else
    }
}

/// Classification is total and the classes are pairwise disjoint: every
/// character belongs to exactly one class, and `spec_classify` picks it.
pub proof fn lemma_classify_exactly_one(c: char)
    ensures
        char_in_class(c, spec_classify(c)),
        forall|t: CharType| char_in_class(c, t) ==> t == spec_classify(c),
{
}

impl CharType {
    /// Classify one character.
    pub fn classify(c: char) -> (t: CharType)
        ensures
            t == spec_classify(c),
    {
        let u = c as u32;
        if (0x3041 <= u && u <= 0x3093) || u == 0x309D || u == 0x309E {
            CharType::Hiragana
        } else if (0x30A1 <= u && u <= 0x30F3) || u == 0x30FC || u == 0x30FD || u == 0x30FE
            || u == 0x30F4 {
            CharType::Katakana
        } else if (0xFF10 <= u && u <= 0xFF19) || (0xFF21 <= u && u <= 0xFF3A)
            || (0xFF41 <= u && u <= 0xFF5A) || (0x0391 <= u && u <= 0x03A9)
            || (0x03B1 <= u && u <= 0x03C9) || (0x0410 <= u && u <= 0x042F)
            || (0x0430 <= u && u <= 0x044F) || u == 0x2212 || u == 0xFF06 || u == 0x2019
            || u == 0xFF0C || u == 0xFF0E {
            CharType::Zenkaku
        } else if (0x41 <= u && u <= 0x5A) || (0x61 <= u && u <= 0x7A) || (0x30 <= u && u <= 0x39)
            || u == 0x23 || u == 0x2D || u == 0x26 || u == 0x27 || u == 0x2C {
            CharType::Hankaku
        } else if (0x4E00 <= u && u <= 0x9FFF) || u == 0x3005 || u == 0x203B || u == 0x3006
            || u == 0x3007 || u == 0x30F6 {
            CharType::Kanji
        } else if u == 0x2E || u == 0x3B || u == 0x22 || u == 0x3F || u == 0x21 || u == 0x29 {
            CharType::HankakuTerminate
        } else {
            CharType::Else
        }
    }

    /// Whether this class may carry ruby: every class but the catch-all can.
    pub fn can_be_ruby_base(&self) -> (r: bool)
        ensures
            r == (*self != CharType::Else),
    {
        !matches!(self, CharType::Else)
    }
}

/// Extension trait classifying a character directly.
pub trait CharTypeExt {
    /// The class of this character.
    fn char_type(&self) -> CharType;
}

impl CharTypeExt for char {
    fn char_type(&self) -> (t: CharType) {
        CharType::classify(*self)
    }
}

} // verus!
