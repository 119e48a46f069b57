//! Block start and end directives: `ここから...` and `ここで...終わり`, the
//! hanging-indent pattern, line-scoped indents, and generic inline ends.

use vstd::prelude::*;

use crate::node::block::{spec_block_type_from, spec_font_size_from, spec_params_default,
    BlockParams, BlockParamsM, BlockType, FontSizeType};
use crate::node::midashi::{spec_midashi_level_from, spec_midashi_style_from, MidashiLevel,
    MidashiStyle};
use crate::node::style::{spec_style_from, StyleType};
use crate::parser::command_parser::{opt_cr_model, CommandResult, CommandResultM};
use crate::strutil::{chars_subrange, chars_to_string, contains_pat, eq_pat,
    extract_number_chars, find_pat, lemma_spec_find_from, spec_contains, spec_ends_with,
    spec_extract_number, spec_find, spec_starts_with, str_to_chars, sub_at};

verus! {

/// The hanging-indent directive `[width]折り返して[wrap]`, where the wrap
/// keyword occurs exactly once.
pub open spec fn spec_try_burasage(rest: Seq<char>) -> Option<CommandResultM> {
    let i = spec_find(rest, "折り返して"@);
    if i < 0 {
        None
    } else {
        let first = rest.subrange(0, i);
        let second = rest.subrange(i + "折り返して"@.len(), rest.len() as int);
        if spec_contains(second, "折り返して"@) {
            None
        } else {
            Some(CommandResultM::BlockStart {
                block_type: BlockType::Burasage,
                params: BlockParamsM {
                    width: if spec_contains(first, "天付き"@) {
                        Some(0u32)
                    } else {
                        spec_extract_number(first)
                    },
                    wrap_width: spec_extract_number(second),
                    is_block: true,
                    ..spec_params_default()
                },
            })
        }
    }
}

/// The block-start command read from text that begins with the start
/// keyword.
pub open spec fn spec_parse_block_start(s: Seq<char>) -> CommandResultM {
    let rest = s.subrange("ここから"@.len() as int, s.len() as int);
    if spec_contains(rest, "折り返して"@) && spec_try_burasage(rest) is Some {
        spec_try_burasage(rest)->0
    } else {
        match spec_block_type_from(rest) {
            Some(bt) => CommandResultM::BlockStart {
                block_type: bt,
                params: BlockParamsM {
                    width: spec_extract_number(rest),
                    font_size: if spec_contains(rest, "段階"@) {
                        spec_extract_number(rest)
                    } else {
                        None
                    },
                    level: if bt == BlockType::Midashi {
                        spec_midashi_level_from(rest)
                    } else {
                        None
                    },
                    is_block: true,
                    ..spec_params_default()
                },
            },
            None => CommandResultM::Note("ここから"@ + rest),
        }
    }
}

/// The block-end command read from text wrapped in the end keywords.
pub open spec fn spec_parse_block_end(s: Seq<char>) -> CommandResultM {
    if s.len() < "ここで"@.len() + "終わり"@.len() {
        CommandResultM::Note(s)
    } else {
        let body = s.subrange("ここで"@.len() as int, s.len() - "終わり"@.len());
        match spec_block_type_from(body) {
            Some(bt) => CommandResultM::BlockEnd { block_type: bt },
            None => CommandResultM::Note("ここで"@ + body + "終わり"@),
        }
    }
}

/// The generic inline-end command read from text that ends in the end
/// keyword.
pub open spec fn spec_parse_inline_end(s: Seq<char>) -> CommandResultM {
    let body = s.subrange(0, s.len() - "終わり"@.len());
    if body == "縦中横"@ {
        CommandResultM::TcyEnd
    } else if body == "割り注"@ {
        CommandResultM::WarigakiEnd
    } else if body == "キャプション"@ {
        CommandResultM::CaptionEnd
    } else if spec_style_from(body) is Some {
        CommandResultM::StyleEnd { style_type: spec_style_from(body)->0 }
    } else if spec_block_type_from(body) is Some {
        CommandResultM::BlockEnd { block_type: spec_block_type_from(body)->0 }
    } else {
        CommandResultM::Note(body + "終わり"@)
    }
}

/// The line-scoped indent, where the text names one.
pub open spec fn spec_try_line_indent(s: Seq<char>) -> Option<CommandResultM> {
    if !spec_contains(s, "字下げ"@) {
        None
    } else {
        match spec_extract_number(s) {
            Some(w) => Some(CommandResultM::LineIndent { width: w }),
            None => None,
        }
    }
}

/// The line-scoped bottom alignment, where the text names one.
pub open spec fn spec_try_line_chitsuki(s: Seq<char>) -> Option<CommandResultM> {
    if spec_contains(s, "地付き"@) {
        Some(CommandResultM::LineChitsuki { width: 0 })
    } else if spec_contains(s, "地から"@) && spec_contains(s, "字上げ"@) {
        Some(CommandResultM::LineChitsuki {
            width: match spec_extract_number(s) {
                Some(w) => w,
                None => 0u32,
            },
        })
    } else {
        None
    }
}

/// The block-start command, from directive text held as characters.
pub fn parse_block_start_chars(v: &Vec<char>) -> (r: CommandResult)
    requires
        spec_starts_with(v@, "ここから"@),
    ensures
        r.model() == spec_parse_block_start(v@),
{
    let prefix = str_to_chars("ここから");
    let rest = chars_subrange(v, prefix.len(), v.len());
    let nr = rest.len();
    let wrap_pat = str_to_chars("折り返して");
    if contains_pat(&rest, &wrap_pat) {
        if let Some(i) = find_pat(&rest, &wrap_pat) {
            proof {
                lemma_spec_find_from(rest@, wrap_pat@, 0);
            }
            let first = chars_subrange(&rest, 0, i);
            let second = chars_subrange(&rest, i + wrap_pat.len(), nr);
            if !contains_pat(&second, &wrap_pat) {
                let mut params = BlockParams::default();
                params.is_block = true;
                params.wrap_width = extract_number_chars(&second);
                params.width = if contains_pat(&first, &str_to_chars("天付き")) {
                    Some(0)
                } else {
                    extract_number_chars(&first)
                };
                return CommandResult::BlockStart { block_type: BlockType::Burasage, params };
            }
        }
    }
    let mut params = BlockParams::default();
    params.is_block = true;
    params.width = extract_number_chars(&rest);
    if contains_pat(&rest, &str_to_chars("段階")) {
        params.font_size = extract_number_chars(&rest);
    }
    match BlockType::from_chars(&rest) {
        Some(bt) => {
            if matches!(bt, BlockType::Midashi) {
                params.level = MidashiLevel::from_command(chars_to_string(&rest).as_str());
            }
            CommandResult::BlockStart { block_type: bt, params }
        },
        None => {
            let mut text = String::from_str("ここから");
            let rest_str = chars_to_string(&rest);
            text.append(rest_str.as_str());
            CommandResult::Note(text)
        },
    }
}

/// The block-end command, from directive text held as characters.
pub fn parse_block_end_chars(v: &Vec<char>) -> (r: CommandResult)
    ensures
        r.model() == spec_parse_block_end(v@),
{
    let prefix = str_to_chars("ここで");
    let suffix = str_to_chars("終わり");
    if v.len() < prefix.len() || v.len() - prefix.len() < suffix.len() {
        return CommandResult::Note(chars_to_string(v));
    }
    let body = chars_subrange(v, prefix.len(), v.len() - suffix.len());
    match BlockType::from_chars(&body) {
        Some(bt) => CommandResult::BlockEnd { block_type: bt },
        None => {
            let mut text = String::from_str("ここで");
            let body_str = chars_to_string(&body);
            text.append(body_str.as_str());
            text.append("終わり");
            CommandResult::Note(text)
        },
    }
}

/// The generic inline-end command, from directive text held as characters.
pub fn parse_inline_end_chars(v: &Vec<char>) -> (r: CommandResult)
    requires
        spec_ends_with(v@, "終わり"@),
    ensures
        r.model() == spec_parse_inline_end(v@),
{
    let suffix = str_to_chars("終わり");
    let body = chars_subrange(v, 0, v.len() - suffix.len());
    if eq_pat(&body, &str_to_chars("縦中横")) {
        return CommandResult::TcyEnd;
    }
    if eq_pat(&body, &str_to_chars("割り注")) {
        return CommandResult::WarigakiEnd;
    }
    if eq_pat(&body, &str_to_chars("キャプション")) {
        return CommandResult::CaptionEnd;
    }
    let body_str = chars_to_string(&body);
    if let Some(style_type) = StyleType::from_command(body_str.as_str()) {
        return CommandResult::StyleEnd { style_type };
    }
    if let Some(bt) = BlockType::from_chars(&body) {
        return CommandResult::BlockEnd { block_type: bt };
    }
    let mut text = body_str;
    text.append("終わり");
    CommandResult::Note(text)
}

/// The line-scoped indent, from directive text held as characters.
pub fn try_parse_line_indent_chars(v: &Vec<char>) -> (r: Option<CommandResult>)
    ensures
        opt_cr_model(r) == spec_try_line_indent(v@),
{
    if !contains_pat(v, &str_to_chars("字下げ")) {
        return None;
    }
    match extract_number_chars(v) {
        Some(width) => Some(CommandResult::LineIndent { width }),
        None => None,
    }
}

/// The line-scoped indent read from directive text, if it names one.
pub fn try_parse_line_indent(content: &str) -> (r: Option<CommandResult>)
    ensures
        opt_cr_model(r) == spec_try_line_indent(content@),
{
    let v = str_to_chars(content);
    try_parse_line_indent_chars(&v)
}

/// The line-scoped bottom alignment, from directive text held as characters.
pub fn try_parse_line_chitsuki_chars(v: &Vec<char>) -> (r: Option<CommandResult>)
    ensures
        opt_cr_model(r) == spec_try_line_chitsuki(v@),
{
    if contains_pat(v, &str_to_chars("地付き")) {
        return Some(CommandResult::LineChitsuki { width: 0 });
    }
    if contains_pat(v, &str_to_chars("地から")) && contains_pat(v, &str_to_chars("字上げ")) {
        let width = match extract_number_chars(v) {
            Some(w) => w,
            None => 0,
        };
        return Some(CommandResult::LineChitsuki { width });
    }
    None
}

/// The line-scoped bottom alignment read from directive text, if it names one.
pub fn try_parse_line_chitsuki(content: &str) -> (r: Option<CommandResult>)
    ensures
        opt_cr_model(r) == spec_try_line_chitsuki(content@),
{
    let v = str_to_chars(content);
    try_parse_line_chitsuki_chars(&v)
}

/// The block-start command read from directive text that begins with the
/// start keyword.
pub fn parse_block_start(content: &str) -> (r: CommandResult)
    requires
        spec_starts_with(content@, "ここから"@),
    ensures
        r.model() == spec_parse_block_start(content@),
{
    let v = str_to_chars(content);
    parse_block_start_chars(&v)
}

/// The block-end command read from directive text wrapped in the end
/// keywords.
pub fn parse_block_end(content: &str) -> (r: CommandResult)
    ensures
        r.model() == spec_parse_block_end(content@),
{
    let v = str_to_chars(content);
    parse_block_end_chars(&v)
}

/// The generic inline-end command read from directive text that ends in the
/// end keyword.
pub fn parse_inline_end(content: &str) -> (r: CommandResult)
    requires
        spec_ends_with(content@, "終わり"@),
    ensures
        r.model() == spec_parse_inline_end(content@),
{
    let v = str_to_chars(content);
    parse_inline_end_chars(&v)
}

/// The standalone heading-start command, where the text names a heading.
pub fn try_parse_midashi_start(content: &str) -> (r: Option<CommandResult>)
    ensures
        match spec_midashi_level_from(content@) {
            Some(level) => opt_cr_model(r) == Some(CommandResultM::BlockStart {
                block_type: BlockType::Midashi,
                params: BlockParamsM {
                    level: Some(level),
                    midashi_style: Some(spec_midashi_style_from(content@)),
                    ..spec_params_default()
                },
            }),
            None => r is None,
        },
{
    let level = match MidashiLevel::from_command(content) {
        Some(l) => l,
        None => {
            return None;
        },
    };
    let style = MidashiStyle::from_command(content);
    let mut params = BlockParams::default();
    params.level = Some(level);
    params.midashi_style = Some(style);
    Some(CommandResult::BlockStart { block_type: BlockType::Midashi, params })
}

/// The standalone font-size-start command, where the text names a size
/// change.
pub fn try_parse_font_size_start(content: &str) -> (r: Option<CommandResult>)
    ensures
        match spec_font_size_from(content@) {
            Some(fl) => opt_cr_model(r) == Some(CommandResultM::BlockStart {
                block_type: if fl.0 == FontSizeType::Dai {
                    BlockType::FontDai
                } else {
                    BlockType::FontSho
                },
                params: BlockParamsM { font_size: Some(fl.1), ..spec_params_default() },
            }),
            None => r is None,
        },
{
    let (size_type, level) = match FontSizeType::from_command(content) {
        Some(t) => t,
        None => {
            return None;
        },
    };
    let mut params = BlockParams::default();
    params.font_size = Some(level);
    let bt = if matches!(size_type, FontSizeType::Dai) {
        BlockType::FontDai
    } else {
        BlockType::FontSho
    };
    Some(CommandResult::BlockStart { block_type: bt, params })
}

} // verus!
