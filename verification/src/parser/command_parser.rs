//! The command interpreter: classifies the free-form text of a directive
//! bracket into a structured command, trying the pattern families in a
//! fixed priority order that is part of the grammar.

use vstd::prelude::*;

use crate::node::block::{spec_block_type_from, spec_font_size_from, spec_params_default,
    BlockParams, BlockParamsM, BlockType, FontSizeType};
use crate::node::midashi::{spec_midashi_level_from, spec_midashi_style_from, MidashiLevel,
    MidashiStyle};
use crate::node::style::{spec_style_from, StyleType};
use crate::parser::block_parser::{parse_block_end_chars, parse_block_start_chars,
    parse_inline_end_chars, spec_parse_block_end, spec_parse_block_start, spec_parse_inline_end,
    spec_try_line_chitsuki, spec_try_line_indent, try_parse_line_chitsuki_chars,
    try_parse_line_indent_chars};
use crate::parser::content_parser::{is_kaeriten_chars, spec_is_kaeriten, spec_try_image,
    spec_try_okurigana, try_parse_image_chars, try_parse_okurigana_chars};
use crate::parser::reference_parser::{spec_try_annotation_range, spec_try_left_ruby,
    spec_try_reference, try_parse_annotation_range_chars, try_parse_left_ruby_chars,
    try_parse_reference_chars};
use crate::strutil::{chars_to_string, ends_with_pat, eq_pat, spec_ends_with, spec_starts_with,
    spec_trim, starts_with_pat, str_to_chars, trim_chars};

verus! {

/// Mathematical model of an interpreted command.
#[verifier::ext_equal]
pub enum CommandResultM {
    /// Decoration of earlier text.
    Style { target: Seq<char>, connector: Seq<char>, style_type: StyleType },
    /// Heading made of earlier text.
    Midashi { target: Seq<char>, level: MidashiLevel, style: MidashiStyle },
    /// Font-size change of earlier text.
    FontSize { target: Seq<char>, size_type: FontSizeType, level: u32 },
    /// Start of a block.
    BlockStart { block_type: BlockType, params: BlockParamsM },
    /// End of a block.
    BlockEnd { block_type: BlockType },
    /// Indent of the current line alone.
    LineIndent { width: u32 },
    /// Bottom alignment of the current line alone.
    LineChitsuki { width: u32 },
    /// Opaque note.
    Note(Seq<char>),
    /// Image insertion.
    Image { filename: Seq<char>, alt: Seq<char>, width: Option<u32>, height: Option<u32> },
    /// Reading-order return mark.
    Kaeriten(Seq<char>),
    /// Reading-aid suffix kana.
    Okurigana(Seq<char>),
    /// Start of a vertical-in-horizontal run.
    TcyStart,
    /// End of a vertical-in-horizontal run.
    TcyEnd,
    /// Start of a two-half-line note.
    WarigakiStart,
    /// End of a two-half-line note.
    WarigakiEnd,
    /// Start of a caption.
    CaptionStart,
    /// End of a caption.
    CaptionEnd,
    /// Ruby on the left side of earlier text.
    LeftRuby { target: Seq<char>, ruby: Seq<char> },
    /// Annotation shown as ruby over earlier text.
    AnnotationRuby { target: Seq<char>, annotation: Seq<char> },
    /// Earlier text set vertical-in-horizontal.
    InlineTcy { target: Seq<char> },
    /// Earlier text framed.
    InlineKeigakomi { target: Seq<char> },
    /// Earlier text set in a horizontal run.
    InlineYokogumi { target: Seq<char> },
    /// Earlier text set as a caption.
    InlineCaption { target: Seq<char> },
    /// Start of a decorated span.
    StyleStart { style_type: StyleType },
    /// End of a decorated span.
    StyleEnd { style_type: StyleType },
    /// Start of an annotation range.
    AnnotationRangeStart,
    /// Start of a left-hand annotation range.
    LeftAnnotationRangeStart,
    /// End of an annotation range, carrying its annotation.
    AnnotationRangeEnd { annotation: Seq<char> },
    /// End of a left-hand annotation range.
    LeftAnnotationRangeEnd { annotation: Seq<char> },
    /// Annotation repeated beside each character of earlier text.
    SideNote { target: Seq<char>, annotation: Seq<char> },
    /// Unrecognized command.
    Unknown(Seq<char>),
}

/// An interpreted command.
#[derive(Debug, Clone, PartialEq)]
pub enum CommandResult {
    /// Decoration of earlier text.
    Style {
        /// The text to decorate.
        target: String,
        /// The particle that joined target and style.
        connector: String,
        /// The decoration.
        style_type: StyleType,
    },
    /// Heading made of earlier text.
    Midashi {
        /// The heading text.
        target: String,
        /// Heading level.
        level: MidashiLevel,
        /// Heading style.
        style: MidashiStyle,
    },
    /// Font-size change of earlier text.
    FontSize {
        /// The text to change.
        target: String,
        /// Direction of the change.
        size_type: FontSizeType,
        /// Number of steps.
        level: u32,
    },
    /// Start of a block.
    BlockStart {
        /// Kind of the block.
        block_type: BlockType,
        /// Its parameters.
        params: BlockParams,
    },
    /// End of a block.
    BlockEnd {
        /// Kind of the block.
        block_type: BlockType,
    },
    /// Indent of the current line alone.
    LineIndent {
        /// Width in characters.
        width: u32,
    },
    /// Bottom alignment of the current line alone.
    LineChitsuki {
        /// Raise in characters.
        width: u32,
    },
    /// Opaque note.
    Note(String),
    /// Image insertion.
    Image {
        /// File name.
        filename: String,
        /// Alternative text.
        alt: String,
        /// Width in pixels.
        width: Option<u32>,
        /// Height in pixels.
        height: Option<u32>,
    },
    /// Reading-order return mark.
    Kaeriten(String),
    /// Reading-aid suffix kana.
    Okurigana(String),
    /// Start of a vertical-in-horizontal run.
    TcyStart,
    /// End of a vertical-in-horizontal run.
    TcyEnd,
    /// Start of a two-half-line note.
    WarigakiStart,
    /// End of a two-half-line note.
    WarigakiEnd,
    /// Start of a caption.
    CaptionStart,
    /// End of a caption.
    CaptionEnd,
    /// Ruby on the left side of earlier text.
    LeftRuby {
        /// The base text.
        target: String,
        /// The gloss.
        ruby: String,
    },
    /// Annotation shown as ruby over earlier text.
    AnnotationRuby {
        /// The base text.
        target: String,
        /// The annotation.
        annotation: String,
    },
    /// Earlier text set vertical-in-horizontal.
    InlineTcy {
        /// The text.
        target: String,
    },
    /// Earlier text framed.
    InlineKeigakomi {
        /// The text.
        target: String,
    },
    /// Earlier text set in a horizontal run.
    InlineYokogumi {
        /// The text.
        target: String,
    },
    /// Earlier text set as a caption.
    InlineCaption {
        /// The text.
        target: String,
    },
    /// Start of a decorated span.
    StyleStart {
        /// The decoration.
        style_type: StyleType,
    },
    /// End of a decorated span.
    StyleEnd {
        /// The decoration.
        style_type: StyleType,
    },
    /// Start of an annotation range.
    AnnotationRangeStart,
    /// Start of a left-hand annotation range.
    LeftAnnotationRangeStart,
    /// End of an annotation range, carrying its annotation.
    AnnotationRangeEnd {
        /// The annotation text.
        annotation: String,
    },
    /// End of a left-hand annotation range.
    LeftAnnotationRangeEnd {
        /// The annotation text.
        annotation: String,
    },
    /// Annotation repeated beside each character of earlier text.
    SideNote {
        /// The base text.
        target: String,
        /// The annotation.
        annotation: String,
    },
    /// Unrecognized command.
    Unknown(String),
}

impl CommandResult {
    /// The model of this command.
    pub open spec fn model(self) -> CommandResultM {
        match self {
            CommandResult::Style { target, connector, style_type } => CommandResultM::Style {
                target: target@,
                connector: connector@,
                style_type,
            },
            CommandResult::Midashi { target, level, style } => CommandResultM::Midashi {
                target: target@,
                level,
                style,
            },
            CommandResult::FontSize { target, size_type, level } => CommandResultM::FontSize {
                target: target@,
                size_type,
                level,
            },
            CommandResult::BlockStart { block_type, params } => CommandResultM::BlockStart {
                block_type,
                params: params.model(),
            },
            CommandResult::BlockEnd { block_type } => CommandResultM::BlockEnd { block_type },
            CommandResult::LineIndent { width } => CommandResultM::LineIndent { width },
            CommandResult::LineChitsuki { width } => CommandResultM::LineChitsuki { width },
            CommandResult::Note(s) => CommandResultM::Note(s@),
            CommandResult::Image { filename, alt, width, height } => CommandResultM::Image {
                filename: filename@,
                alt: alt@,
                width,
                height,
            },
            CommandResult::Kaeriten(s) => CommandResultM::Kaeriten(s@),
            CommandResult::Okurigana(s) => CommandResultM::Okurigana(s@),
            CommandResult::TcyStart => CommandResultM::TcyStart,
            CommandResult::TcyEnd => CommandResultM::TcyEnd,
            CommandResult::WarigakiStart => CommandResultM::WarigakiStart,
            CommandResult::WarigakiEnd => CommandResultM::WarigakiEnd,
            CommandResult::CaptionStart => CommandResultM::CaptionStart,
            CommandResult::CaptionEnd => CommandResultM::CaptionEnd,
            CommandResult::LeftRuby { target, ruby } => CommandResultM::LeftRuby {
                target: target@,
                ruby: ruby@,
            },
            CommandResult::AnnotationRuby { target, annotation } => CommandResultM::AnnotationRuby {
                target: target@,
                annotation: annotation@,
            },
            CommandResult::InlineTcy { target } => CommandResultM::InlineTcy { target: target@ },
            CommandResult::InlineKeigakomi { target } => CommandResultM::InlineKeigakomi {
                target: target@,
            },
            CommandResult::InlineYokogumi { target } => CommandResultM::InlineYokogumi {
                target: target@,
            },
            CommandResult::InlineCaption { target } => CommandResultM::InlineCaption {
                target: target@,
            },
            CommandResult::StyleStart { style_type } => CommandResultM::StyleStart { style_type },
            CommandResult::StyleEnd { style_type } => CommandResultM::StyleEnd { style_type },
            CommandResult::AnnotationRangeStart => CommandResultM::AnnotationRangeStart,
            CommandResult::LeftAnnotationRangeStart => CommandResultM::LeftAnnotationRangeStart,
            CommandResult::AnnotationRangeEnd { annotation } => CommandResultM::AnnotationRangeEnd {
                annotation: annotation@,
            },
            CommandResult::LeftAnnotationRangeEnd { annotation } =>
                CommandResultM::LeftAnnotationRangeEnd { annotation: annotation@ },
            CommandResult::SideNote { target, annotation } => CommandResultM::SideNote {
                target: target@,
                annotation: annotation@,
            },
            CommandResult::Unknown(s) => CommandResultM::Unknown(s@),
        }
    }
}

/// The model of an optional command.
pub open spec fn opt_cr_model(o: Option<CommandResult>) -> Option<CommandResultM> {
    match o {
        Some(c) => Some(c.model()),
        None => None,
    }
}

/// The command read from trimmed directive text, trying the pattern
/// families in priority order: left ruby, backward reference, block start,
/// block end, annotation range, generic inline end, line indent, line
/// bottom-alignment, return marks, suffix kana, image, the fixed inline
/// keywords, style start, heading start, font-size start, and finally an
/// opaque note.
pub open spec fn spec_parse_trimmed(s: Seq<char>) -> CommandResultM {
    if spec_try_left_ruby(s) is Some {
        spec_try_left_ruby(s)->0
    } else if spec_try_reference(s) is Some {
        spec_try_reference(s)->0
    } else if spec_starts_with(s, "ここから"@) {
        spec_parse_block_start(s)
    } else if spec_starts_with(s, "ここで"@) && spec_ends_with(s, "終わり"@) {
        spec_parse_block_end(s)
    } else if spec_try_annotation_range(s) is Some {
        spec_try_annotation_range(s)->0
    } else if spec_ends_with(s, "終わり"@) {
        spec_parse_inline_end(s)
    } else if spec_try_line_indent(s) is Some {
        spec_try_line_indent(s)->0
    } else if spec_try_line_chitsuki(s) is Some {
        spec_try_line_chitsuki(s)->0
    } else if spec_is_kaeriten(s) {
        CommandResultM::Kaeriten(s)
    } else if spec_try_okurigana(s) is Some {
        CommandResultM::Okurigana(spec_try_okurigana(s)->0)
    } else if spec_ends_with(s, "入る"@) && spec_try_image(s) is Some {
        spec_try_image(s)->0
    } else if s == "縦中横"@ {
        CommandResultM::TcyStart
    } else if s == "割り注"@ {
        CommandResultM::WarigakiStart
    } else if s == "罫囲み"@ {
        CommandResultM::BlockStart {
            block_type: BlockType::Keigakomi,
            params: spec_params_default(),
        }
    } else if s == "横組み"@ {
        CommandResultM::BlockStart {
            block_type: BlockType::Yokogumi,
            params: spec_params_default(),
        }
    } else if s == "キャプション"@ {
        CommandResultM::CaptionStart
    } else if spec_style_from(s) is Some {
        CommandResultM::StyleStart { style_type: spec_style_from(s)->0 }
    } else if spec_midashi_level_from(s) is Some {
        CommandResultM::BlockStart {
            block_type: BlockType::Midashi,
            params: BlockParamsM {
                level: Some(spec_midashi_level_from(s)->0),
                midashi_style: Some(spec_midashi_style_from(s)),
                ..spec_params_default()
            },
        }
    } else if spec_font_size_from(s) is Some {
        CommandResultM::BlockStart {
            block_type: if (spec_font_size_from(s)->0).0 == FontSizeType::Dai {
                BlockType::FontDai
            } else {
                BlockType::FontSho
            },
            params: BlockParamsM {
                font_size: Some((spec_font_size_from(s)->0).1),
                ..spec_params_default()
            },
        }
    } else {
        CommandResultM::Note(s)
    }
}

/// The command read from directive text (leading and trailing blanks are
/// ignored first).
pub open spec fn spec_parse_command(s: Seq<char>) -> CommandResultM {
    spec_parse_trimmed(spec_trim(s))
}

/// Interpret the text of one directive bracket.
pub fn parse_command(content: &str) -> (r: CommandResult)
    ensures
        r.model() == spec_parse_command(content@),
{
    let raw = str_to_chars(content);
    let v = trim_chars(&raw);
    if let Some(r) = try_parse_left_ruby_chars(&v) {
        return r;
    }
    if let Some(r) = try_parse_reference_chars(&v) {
        return r;
    }
    if starts_with_pat(&v, &str_to_chars("ここから")) {
        return parse_block_start_chars(&v);
    }
    if starts_with_pat(&v, &str_to_chars("ここで")) && ends_with_pat(&v, &str_to_chars("終わり"))
    {
        return parse_block_end_chars(&v);
    }
    if let Some(r) = try_parse_annotation_range_chars(&v) {
        return r;
    }
    if ends_with_pat(&v, &str_to_chars("終わり")) {
        return parse_inline_end_chars(&v);
    }
    if let Some(r) = try_parse_line_indent_chars(&v) {
        return r;
    }
    if let Some(r) = try_parse_line_chitsuki_chars(&v) {
        return r;
    }
    if is_kaeriten_chars(&v) {
        return CommandResult::Kaeriten(chars_to_string(&v));
    }
    if let Some(inner) = try_parse_okurigana_chars(&v) {
        return CommandResult::Okurigana(inner);
    }
    if ends_with_pat(&v, &str_to_chars("入る")) {
        if let Some(r) = try_parse_image_chars(&v) {
            return r;
        }
    }
    if eq_pat(&v, &str_to_chars("縦中横")) {
        return CommandResult::TcyStart;
    }
    if eq_pat(&v, &str_to_chars("割り注")) {
        return CommandResult::WarigakiStart;
    }
    if eq_pat(&v, &str_to_chars("罫囲み")) {
        return CommandResult::BlockStart {
            block_type: BlockType::Keigakomi,
            params: BlockParams::default(),
        };
    }
    if eq_pat(&v, &str_to_chars("横組み")) {
        return CommandResult::BlockStart {
            block_type: BlockType::Yokogumi,
            params: BlockParams::default(),
        };
    }
    if eq_pat(&v, &str_to_chars("キャプション")) {
        return CommandResult::CaptionStart;
    }
    if let Some(style_type) = StyleType::from_command(chars_to_string(&v).as_str()) {
        return CommandResult::StyleStart { style_type };
    }
    if let Some(level) = MidashiLevel::from_command(chars_to_string(&v).as_str()) {
        let style = MidashiStyle::from_command(chars_to_string(&v).as_str());
        let mut params = BlockParams::default();
        params.level = Some(level);
        params.midashi_style = Some(style);
        return CommandResult::BlockStart { block_type: BlockType::Midashi, params };
    }
    if let Some((size_type, flevel)) = FontSizeType::from_chars(&v) {
        let mut params = BlockParams::default();
        params.font_size = Some(flevel);
        let bt = if matches!(size_type, FontSizeType::Dai) {
            BlockType::FontDai
        } else {
            BlockType::FontSho
        };
        return CommandResult::BlockStart { block_type: bt, params };
    }
    CommandResult::Note(chars_to_string(&v))
}

} // verus!
