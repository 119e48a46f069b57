//! Backward-reference directives: `「target」`, a connector particle, and a
//! specification of what to apply to the target.

use vstd::prelude::*;

use crate::node::block::{spec_font_size_from, FontSizeType};
use crate::node::midashi::{spec_midashi_level_from, spec_midashi_style_from, MidashiLevel,
    MidashiStyle};
use crate::node::style::{spec_style_from, spec_to_after_variant, StyleType};
use crate::parser::command_parser::{opt_cr_model, CommandResult, CommandResultM};
use crate::strutil::{chars_range_to_string, chars_subrange, chars_to_string, contains_pat,
    ends_with_pat, eq_pat, find_pat, lemma_spec_find_from, lemma_spec_rfind_down, rfind_pat,
    spec_contains, spec_ends_with, spec_find, spec_rfind, spec_starts_with, starts_with_pat,
    str_to_chars, sub_at};

verus! {

/// The connector particle found in the text after the target: the particle,
/// the specification after it, and whether the left-hand variant was named.
pub open spec fn spec_parse_connector(rest: Seq<char>) -> Option<(Seq<char>, Seq<char>, bool)> {
    if spec_find(rest, "の左に"@) >= 0 {
        if spec_contains(rest, "のルビ"@) {
            None
        } else {
            let pos = spec_find(rest, "の左に"@);
            Some(("の左に"@, rest.subrange(pos + "の左に"@.len(), rest.len() as int), true))
        }
    } else if spec_find(rest, "に"@) >= 0 {
        let pos = spec_find(rest, "に"@);
        Some(("に"@, rest.subrange(pos + "に"@.len(), rest.len() as int), false))
    } else if spec_find(rest, "は"@) >= 0 {
        let pos = spec_find(rest, "は"@);
        Some(("は"@, rest.subrange(pos + "は"@.len(), rest.len() as int), false))
    } else if spec_find(rest, "の"@) >= 0 {
        let pos = spec_find(rest, "の"@);
        Some(("の"@, rest.subrange(pos + "の"@.len(), rest.len() as int), false))
    } else {
        None
    }
}

/// The annotation of an annotation-ruby specification `「note」の注記`.
pub open spec fn spec_try_annotation_ruby(sp: Seq<char>) -> Option<Seq<char>> {
    if !spec_ends_with(sp, "の注記"@) {
        None
    } else {
        let qs = spec_find(sp, "「"@);
        let qe = spec_find(sp, "」"@);
        if qs < 0 || qe < 0 || qe <= qs {
            None
        } else {
            Some(sp.subrange(qs + 1, qe))
        }
    }
}

/// The annotation of a side-note specification `「note」の傍記`.
pub open spec fn spec_try_side_note(sp: Seq<char>) -> Option<Seq<char>> {
    if !spec_ends_with(sp, "の傍記"@) {
        None
    } else {
        let qs = spec_find(sp, "「"@);
        let qe = spec_find(sp, "」"@);
        if qs < 0 || qe < 0 || qe <= qs {
            None
        } else {
            Some(sp.subrange(qs + 1, qe))
        }
    }
}

/// The backward reference read from directive text, if it parses as one.
pub open spec fn spec_try_reference(s: Seq<char>) -> Option<CommandResultM> {
    let qs = spec_find(s, "「"@);
    let qe = spec_find(s, "」"@);
    if qs < 0 || qe < 0 || qe <= qs {
        None
    } else {
        let target = s.subrange(qs + 1, qe);
        let rest = s.subrange(qe + 1, s.len() as int);
        match spec_parse_connector(rest) {
            None => None,
            Some((conn, sp, is_left)) => {
                if conn == "は"@ && spec_midashi_level_from(sp) is Some {
                    Some(CommandResultM::Midashi {
                        target,
                        level: spec_midashi_level_from(sp)->0,
                        style: spec_midashi_style_from(sp),
                    })
                } else if spec_style_from(sp) is Some {
                    Some(CommandResultM::Style {
                        target,
                        connector: conn,
                        style_type: if is_left {
                            spec_to_after_variant(spec_style_from(sp)->0)
                        } else {
                            spec_style_from(sp)->0
                        },
                    })
                } else if spec_font_size_from(sp) is Some {
                    Some(CommandResultM::FontSize {
                        target,
                        size_type: (spec_font_size_from(sp)->0).0,
                        level: (spec_font_size_from(sp)->0).1,
                    })
                } else if !is_left && spec_try_annotation_ruby(sp) is Some {
                    Some(CommandResultM::AnnotationRuby {
                        target,
                        annotation: spec_try_annotation_ruby(sp)->0,
                    })
                } else if !is_left && spec_try_side_note(sp) is Some {
                    Some(CommandResultM::SideNote {
                        target,
                        annotation: spec_try_side_note(sp)->0,
                    })
                } else if sp == "縦中横"@ {
                    Some(CommandResultM::InlineTcy { target })
                } else if sp == "罫囲み"@ {
                    Some(CommandResultM::InlineKeigakomi { target })
                } else if sp == "横組み"@ {
                    Some(CommandResultM::InlineYokogumi { target })
                } else if sp == "キャプション"@ {
                    Some(CommandResultM::InlineCaption { target })
                } else {
                    None
                }
            },
        }
    }
}

/// The left-ruby directive `「base」の左に「gloss」のルビ`, if the text is one.
pub open spec fn spec_try_left_ruby(s: Seq<char>) -> Option<CommandResultM> {
    let qs = spec_find(s, "「"@);
    let qe = spec_find(s, "」"@);
    if qs < 0 || qe < 0 || qe <= qs {
        None
    } else {
        let target = s.subrange(qs + 1, qe);
        let rest = s.subrange(qe + 1, s.len() as int);
        if !(spec_contains(rest, "の左に"@) && spec_contains(rest, "のルビ"@)) {
            None
        } else {
            let rs = spec_find(rest, "「"@);
            let re = spec_rfind(rest, "」"@);
            if rs < 0 || re < 0 || re <= rs {
                None
            } else {
                Some(CommandResultM::LeftRuby { target, ruby: rest.subrange(rs + 1, re) })
            }
        }
    }
}

/// The annotation-range keyword or closer, if the text is one.
pub open spec fn spec_try_annotation_range(s: Seq<char>) -> Option<CommandResultM> {
    if s == "注記付き"@ {
        Some(CommandResultM::AnnotationRangeStart)
    } else if s == "左に注記付き"@ {
        Some(CommandResultM::LeftAnnotationRangeStart)
    } else if spec_ends_with(s, "の注記付き終わり"@) {
        let qs = spec_find(s, "「"@);
        let qe = spec_rfind(s, "」"@);
        if qs < 0 || qe < 0 || qe <= qs {
            None
        } else {
            let annotation = s.subrange(qs + 1, qe);
            if spec_starts_with(s, "左に"@) {
                Some(CommandResultM::LeftAnnotationRangeEnd { annotation })
            } else {
                Some(CommandResultM::AnnotationRangeEnd { annotation })
            }
        }
    } else {
        None
    }
}

/// Find `p` in `v` and learn that the hit is a real occurrence.
fn find_checked(v: &Vec<char>, p: &Vec<char>) -> (r: Option<usize>)
    ensures
        match r {
            Some(i) => spec_find(v@, p@) == i as int && sub_at(v@, p@, i as int),
            None => spec_find(v@, p@) == -1,
        },
{
    let r = find_pat(v, p);
    proof {
        lemma_spec_find_from(v@, p@, 0);
    }
    r
}

/// Find the last `p` in `v` and learn that the hit is a real occurrence.
fn rfind_checked(v: &Vec<char>, p: &Vec<char>) -> (r: Option<usize>)
    ensures
        match r {
            Some(i) => spec_rfind(v@, p@) == i as int && sub_at(v@, p@, i as int),
            None => spec_rfind(v@, p@) == -1,
        },
{
    let r = rfind_pat(v, p);
    proof {
        lemma_spec_rfind_down(v@, p@, v@.len() - p@.len());
    }
    r
}

/// The connector particle in the text after the target.
fn parse_connector_chars(rest: &Vec<char>) -> (r: Option<(String, Vec<char>, bool)>)
    ensures
        match r {
            Some((conn, sp, is_left)) => spec_parse_connector(rest@) == Some(
                (conn@, sp@, is_left),
            ),
            None => spec_parse_connector(rest@) is None,
        },
{
    proof {
        reveal_strlit("の左に");
        reveal_strlit("のルビ");
        reveal_strlit("に");
        reveal_strlit("は");
        reveal_strlit("の");
    }
    let n = rest.len();
    if let Some(pos) = find_checked(rest, &str_to_chars("の左に")) {
        if contains_pat(rest, &str_to_chars("のルビ")) {
            return None;
        }
        let pat = str_to_chars("の左に");
        let sp = chars_subrange(rest, pos + pat.len(), n);
        return Some((String::from_str("の左に"), sp, true));
    }
    if let Some(pos) = find_checked(rest, &str_to_chars("に")) {
        let pat = str_to_chars("に");
        let sp = chars_subrange(rest, pos + pat.len(), n);
        return Some((String::from_str("に"), sp, false));
    }
    if let Some(pos) = find_checked(rest, &str_to_chars("は")) {
        let pat = str_to_chars("は");
        let sp = chars_subrange(rest, pos + pat.len(), n);
        return Some((String::from_str("は"), sp, false));
    }
    if let Some(pos) = find_checked(rest, &str_to_chars("の")) {
        let pat = str_to_chars("の");
        let sp = chars_subrange(rest, pos + pat.len(), n);
        return Some((String::from_str("の"), sp, false));
    }
    None
}

/// The backward reference read from directive text held as characters.
pub fn try_parse_reference_chars(v: &Vec<char>) -> (r: Option<CommandResult>)
    ensures
        opt_cr_model(r) == spec_try_reference(v@),
{
    proof {
        reveal_strlit("「");
        reveal_strlit("」");
    }
    let n = v.len();
    let qs = match find_checked(v, &str_to_chars("「")) {
        Some(i) => i,
        None => {
            return None;
        },
    };
    let qe = match find_checked(v, &str_to_chars("」")) {
        Some(i) => i,
        None => {
            return None;
        },
    };
    if qe <= qs {
        return None;
    }
    let target = chars_range_to_string(v, qs + 1, qe);
    let rest = chars_subrange(v, qe + 1, n);
    let (conn, sp, is_left) = match parse_connector_chars(&rest) {
        Some(t) => t,
        None => {
            return None;
        },
    };
    let sp_str = chars_to_string(&sp);
    let conn_chars = str_to_chars(conn.as_str());
    let is_ha = eq_pat(&conn_chars, &str_to_chars("は"));
    if is_ha {
        if let Some(level) = MidashiLevel::from_command(sp_str.as_str()) {
            let style = MidashiStyle::from_command(sp_str.as_str());
            return Some(CommandResult::Midashi { target, level, style });
        }
    }
    if let Some(st) = StyleType::from_command(sp_str.as_str()) {
        let style_type = if is_left {
            st.to_after_variant()
        } else {
            st
        };
        return Some(CommandResult::Style { target, connector: conn, style_type });
    }
    if let Some((size_type, level)) = FontSizeType::from_chars(&sp) {
        return Some(CommandResult::FontSize { target, size_type, level });
    }
    if !is_left {
        if let Some(annotation) = try_annotation_pattern(&sp, &str_to_chars("の注記")) {
            proof {
                assert(spec_try_annotation_ruby(sp@) == Some(annotation@));
            }
            return Some(CommandResult::AnnotationRuby { target, annotation });
        }
        if let Some(annotation) = try_annotation_pattern(&sp, &str_to_chars("の傍記")) {
            return Some(CommandResult::SideNote { target, annotation });
        }
    }
    if eq_pat(&sp, &str_to_chars("縦中横")) {
        return Some(CommandResult::InlineTcy { target });
    }
    if eq_pat(&sp, &str_to_chars("罫囲み")) {
        return Some(CommandResult::InlineKeigakomi { target });
    }
    if eq_pat(&sp, &str_to_chars("横組み")) {
        return Some(CommandResult::InlineYokogumi { target });
    }
    if eq_pat(&sp, &str_to_chars("キャプション")) {
        return Some(CommandResult::InlineCaption { target });
    }
    None
}

/// The bracketed annotation of a specification ending in `suffix`.
fn try_annotation_pattern(sp: &Vec<char>, suffix: &Vec<char>) -> (r: Option<String>)
    ensures
        ({
            let m = if !spec_ends_with(sp@, suffix@) {
                None::<Seq<char>>
            } else {
                let qs = spec_find(sp@, "「"@);
                let qe = spec_find(sp@, "」"@);
                if qs < 0 || qe < 0 || qe <= qs {
                    None
                } else {
                    Some(sp@.subrange(qs + 1, qe))
                }
            };
            match r {
                Some(a) => m == Some(a@),
                None => m is None,
            }
        }),
{
    proof {
        reveal_strlit("「");
        reveal_strlit("」");
    }
    if !ends_with_pat(sp, suffix) {
        return None;
    }
    let qs = match find_checked(sp, &str_to_chars("「")) {
        Some(i) => i,
        None => {
            return None;
        },
    };
    let qe = match find_checked(sp, &str_to_chars("」")) {
        Some(i) => i,
        None => {
            return None;
        },
    };
    if qe <= qs {
        return None;
    }
    Some(chars_range_to_string(sp, qs + 1, qe))
}

/// The backward reference read from directive text, if it parses as one.
pub fn try_parse_reference(content: &str) -> (r: Option<CommandResult>)
    ensures
        opt_cr_model(r) == spec_try_reference(content@),
{
    let v = str_to_chars(content);
    try_parse_reference_chars(&v)
}

/// The left-ruby directive read from directive text held as characters.
pub fn try_parse_left_ruby_chars(v: &Vec<char>) -> (r: Option<CommandResult>)
    ensures
        opt_cr_model(r) == spec_try_left_ruby(v@),
{
    proof {
        reveal_strlit("「");
        reveal_strlit("」");
    }
    let n = v.len();
    let qs = match find_checked(v, &str_to_chars("「")) {
        Some(i) => i,
        None => {
            return None;
        },
    };
    let qe = match find_checked(v, &str_to_chars("」")) {
        Some(i) => i,
        None => {
            return None;
        },
    };
    if qe <= qs {
        return None;
    }
    let target = chars_range_to_string(v, qs + 1, qe);
    let rest = chars_subrange(v, qe + 1, n);
    if !(contains_pat(&rest, &str_to_chars("の左に")) && contains_pat(
        &rest,
        &str_to_chars("のルビ"),
    )) {
        return None;
    }
    let rs = match find_checked(&rest, &str_to_chars("「")) {
        Some(i) => i,
        None => {
            return None;
        },
    };
    let re = match rfind_checked(&rest, &str_to_chars("」")) {
        Some(i) => i,
        None => {
            return None;
        },
    };
    if re <= rs {
        return None;
    }
    let ruby = chars_range_to_string(&rest, rs + 1, re);
    Some(CommandResult::LeftRuby { target, ruby })
}

/// The left-ruby directive read from directive text, if it parses as one.
pub fn try_parse_left_ruby(content: &str) -> (r: Option<CommandResult>)
    ensures
        opt_cr_model(r) == spec_try_left_ruby(content@),
{
    let v = str_to_chars(content);
    try_parse_left_ruby_chars(&v)
}

/// The annotation-range keyword or closer read from directive text held as
/// characters.
pub fn try_parse_annotation_range_chars(v: &Vec<char>) -> (r: Option<CommandResult>)
    ensures
        opt_cr_model(r) == spec_try_annotation_range(v@),
{
    if eq_pat(v, &str_to_chars("注記付き")) {
        return Some(CommandResult::AnnotationRangeStart);
    }
    if eq_pat(v, &str_to_chars("左に注記付き")) {
        return Some(CommandResult::LeftAnnotationRangeStart);
    }
    if !ends_with_pat(v, &str_to_chars("の注記付き終わり")) {
        return None;
    }
    proof {
        reveal_strlit("「");
        reveal_strlit("」");
    }
    let qs = match find_checked(v, &str_to_chars("「")) {
        Some(i) => i,
        None => {
            return None;
        },
    };
    let qe = match rfind_checked(v, &str_to_chars("」")) {
        Some(i) => i,
        None => {
            return None;
        },
    };
    if qe <= qs {
        return None;
    }
    let annotation = chars_range_to_string(v, qs + 1, qe);
    if starts_with_pat(v, &str_to_chars("左に")) {
        Some(CommandResult::LeftAnnotationRangeEnd { annotation })
    } else {
        Some(CommandResult::AnnotationRangeEnd { annotation })
    }
}

} // verus!
