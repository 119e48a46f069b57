//! Heading levels and styles.

use vstd::prelude::*;

use crate::strutil::{contains_pat, spec_contains, str_to_chars};

verus! {

/// Heading level.
#[derive(Debug, Clone, Copy, PartialEq, Eq, Structural)]
pub enum MidashiLevel {
    /// Large heading.
    O,
    /// Medium heading.
    Naka,
    /// Small heading.
    Ko,
}

/// The heading level named in a directive, if any.
pub open spec fn spec_midashi_level_from(s: Seq<char>) -> Option<MidashiLevel> {
    if spec_contains(s, "大見出し"@) {
        Some(MidashiLevel::O)
    } else if spec_contains(s, "中見出し"@) {
        Some(MidashiLevel::Naka)
    } else if spec_contains(s, "小見出し"@) {
        Some(MidashiLevel::Ko)
    } else {
        None
    }
}

impl MidashiLevel {
    /// The heading level named in directive text, if any.
    pub fn from_command(command: &str) -> (r: Option<Self>)
        ensures
            r == spec_midashi_level_from(command@),
    {
        let v = str_to_chars(command);
        if contains_pat(&v, &str_to_chars("大見出し")) {
            Some(MidashiLevel::O)
        } else if contains_pat(&v, &str_to_chars("中見出し")) {
            Some(MidashiLevel::Naka)
        } else if contains_pat(&v, &str_to_chars("小見出し")) {
            Some(MidashiLevel::Ko)
        } else {
            None
        }
    }
}

/// Heading style.
#[derive(Debug, Clone, Copy, PartialEq, Eq, Structural)]
pub enum MidashiStyle {
    /// On a line of its own.
    Normal,
    /// On the same line as body text.
    Dogyo,
    /// Window heading.
    Mado,
}

impl Default for MidashiStyle {
    /// The default style is a heading on its own line.
    fn default() -> (r: Self)
        ensures
            r == MidashiStyle::Normal,
    {
        MidashiStyle::Normal
    }
}

/// The heading style named in a directive.
pub open spec fn spec_midashi_style_from(s: Seq<char>) -> MidashiStyle {
    if spec_contains(s, "同行"@) {
        MidashiStyle::Dogyo
    } else if spec_contains(s, "窓"@) {
        MidashiStyle::Mado
    } else {
        MidashiStyle::Normal
    }
}

impl MidashiStyle {
    /// The heading style named in directive text.
    pub fn from_command(command: &str) -> (r: Self)
        ensures
            r == spec_midashi_style_from(command@),
    {
        let v = str_to_chars(command);
        if contains_pat(&v, &str_to_chars("同行")) {
            MidashiStyle::Dogyo
        } else if contains_pat(&v, &str_to_chars("窓")) {
            MidashiStyle::Mado
        } else {
            MidashiStyle::Normal
        }
    }
}

} // verus!
