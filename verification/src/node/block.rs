//! Block kinds and their parameters.

use vstd::prelude::*;

use crate::node::midashi::{MidashiLevel, MidashiStyle};
use crate::node::style::StyleType;
use crate::strutil::{contains_pat, extract_number_chars, spec_contains, spec_extract_number,
    str_to_chars};

verus! {

/// Kind of a block-scoped region.
#[derive(Debug, Clone, Copy, PartialEq, Eq, Structural)]
pub enum BlockType {
    /// Indent.
    Jisage,
    /// Aligned to the bottom (end) edge.
    Chitsuki,
    /// Fixed line width.
    Jizume,
    /// Framed.
    Keigakomi,
    /// Heading.
    Midashi,
    /// Horizontal run inside vertical text.
    Yokogumi,
    /// Bold.
    Futoji,
    /// Italic.
    Shatai,
    /// Larger font.
    FontDai,
    /// Smaller font.
    FontSho,
    /// Vertical-in-horizontal run.
    Tcy,
    /// Caption.
    Caption,
    /// Inline note split over two half-height lines.
    Warigaki,
    /// Hanging indent.
    Burasage,
    /// Decoration applied over a span.
    Style,
    /// Span wrapped by an annotation pair.
    AnnotationRange,
    /// Left-hand variant of the annotation pair.
    LeftAnnotationRange,
}

/// The block kind named in directive text, if any.
pub open spec fn spec_block_type_from(s: Seq<char>) -> Option<BlockType> {
    if spec_contains(s, "折り返して"@) {
        Some(BlockType::Burasage)
    } else if spec_contains(s, "字下げ"@) {
        Some(BlockType::Jisage)
    } else if spec_contains(s, "地付き"@) || spec_contains(s, "地から"@) {
        Some(BlockType::Chitsuki)
    } else if spec_contains(s, "字詰め"@) {
        Some(BlockType::Jizume)
    } else if spec_contains(s, "罫囲み"@) {
        Some(BlockType::Keigakomi)
    } else if spec_contains(s, "見出し"@) {
        Some(BlockType::Midashi)
    } else if spec_contains(s, "横組み"@) {
        Some(BlockType::Yokogumi)
    } else if spec_contains(s, "太字"@) {
        Some(BlockType::Futoji)
    } else if spec_contains(s, "斜体"@) {
        Some(BlockType::Shatai)
    } else if spec_contains(s, "大きな文字"@) {
        Some(BlockType::FontDai)
    } else if spec_contains(s, "小さな文字"@) {
        Some(BlockType::FontSho)
    } else if spec_contains(s, "縦中横"@) {
        Some(BlockType::Tcy)
    } else if spec_contains(s, "キャプション"@) {
        Some(BlockType::Caption)
    } else if spec_contains(s, "割り注"@) {
        Some(BlockType::Warigaki)
    } else {
        None
    }
}

impl BlockType {
    /// The block kind named in directive text, if any.
    pub fn from_command(command: &str) -> (r: Option<Self>)
        ensures
            r == spec_block_type_from(command@),
    {
        let v = str_to_chars(command);
        Self::from_chars(&v)
    }

    /// The block kind named in directive text held as characters.
    pub fn from_chars(v: &Vec<char>) -> (r: Option<Self>)
        ensures
            r == spec_block_type_from(v@),
    {
        if contains_pat(v, &str_to_chars("折り返して")) {
            Some(BlockType::Burasage)
        } else if contains_pat(v, &str_to_chars("字下げ")) {
            Some(BlockType::Jisage)
        } else if contains_pat(v, &str_to_chars("地付き")) || contains_pat(
            v,
            &str_to_chars("地から"),
        ) {
            Some(BlockType::Chitsuki)
        } else if contains_pat(v, &str_to_chars("字詰め")) {
            Some(BlockType::Jizume)
        } else if contains_pat(v, &str_to_chars("罫囲み")) {
            Some(BlockType::Keigakomi)
        } else if contains_pat(v, &str_to_chars("見出し")) {
            Some(BlockType::Midashi)
        } else if contains_pat(v, &str_to_chars("横組み")) {
            Some(BlockType::Yokogumi)
        } else if contains_pat(v, &str_to_chars("太字")) {
            Some(BlockType::Futoji)
        } else if contains_pat(v, &str_to_chars("斜体")) {
            Some(BlockType::Shatai)
        } else if contains_pat(v, &str_to_chars("大きな文字")) {
            Some(BlockType::FontDai)
        } else if contains_pat(v, &str_to_chars("小さな文字")) {
            Some(BlockType::FontSho)
        } else if contains_pat(v, &str_to_chars("縦中横")) {
            Some(BlockType::Tcy)
        } else if contains_pat(v, &str_to_chars("キャプション")) {
            Some(BlockType::Caption)
        } else if contains_pat(v, &str_to_chars("割り注")) {
            Some(BlockType::Warigaki)
        } else {
            None
        }
    }
}

/// Direction of a font-size change.
#[derive(Debug, Clone, Copy, PartialEq, Eq, Structural)]
pub enum FontSizeType {
    /// Larger.
    Dai,
    /// Smaller.
    Sho,
}

/// The font-size change named in directive text, with its level, if any.
pub open spec fn spec_font_size_from(s: Seq<char>) -> Option<(FontSizeType, u32)> {
    let level = match spec_extract_number(s) {
        Some(n) => n,
        None => 1u32,
    };
    if spec_contains(s, "大きな文字"@) {
        Some((FontSizeType::Dai, level))
    } else if spec_contains(s, "小さな文字"@) {
        Some((FontSizeType::Sho, level))
    } else {
        None
    }
}

impl FontSizeType {
    /// The font-size change named in directive text, with its level, if any.
    pub fn from_command(command: &str) -> (r: Option<(FontSizeType, u32)>)
        ensures
            r == spec_font_size_from(command@),
    {
        let v = str_to_chars(command);
        Self::from_chars(&v)
    }

    /// The font-size change named in directive text held as characters.
    pub fn from_chars(v: &Vec<char>) -> (r: Option<(FontSizeType, u32)>)
        ensures
            r == spec_font_size_from(v@),
    {
        let level: u32 = match extract_number_chars(v) {
            Some(n) => n,
            None => 1,
        };
        if contains_pat(v, &str_to_chars("大きな文字")) {
            Some((FontSizeType::Dai, level))
        } else if contains_pat(v, &str_to_chars("小さな文字")) {
            Some((FontSizeType::Sho, level))
        } else {
            None
        }
    }
}

/// Mathematical model of block parameters: the annotation text as a
/// character sequence.
#[verifier::ext_equal]
pub struct BlockParamsM {
    /// Width in characters, where the block kind takes one.
    pub width: Option<u32>,
    /// Wrap width of a hanging indent.
    pub wrap_width: Option<u32>,
    /// Heading level.
    pub level: Option<MidashiLevel>,
    /// Font-size level.
    pub font_size: Option<u32>,
    /// Whether the region is block-scoped rather than inline.
    pub is_block: bool,
    /// Heading style.
    pub midashi_style: Option<MidashiStyle>,
    /// Decoration style of a style block.
    pub style_type: Option<StyleType>,
    /// Annotation text carried by an annotation-range closer.
    pub annotation: Option<Seq<char>>,
    /// Whether an opening parenthesis already stands before the block.
    pub has_open_paren: bool,
    /// Whether a closing parenthesis already stands after the block.
    pub has_close_paren: bool,
}

/// Parameters carried by a block start or end.
#[derive(Debug, Clone, PartialEq)]
pub struct BlockParams {
    /// Width in characters, where the block kind takes one.
    pub width: Option<u32>,
    /// Wrap width of a hanging indent.
    pub wrap_width: Option<u32>,
    /// Heading level.
    pub level: Option<MidashiLevel>,
    /// Font-size level.
    pub font_size: Option<u32>,
    /// Whether the region is block-scoped rather than inline.
    pub is_block: bool,
    /// Heading style.
    pub midashi_style: Option<MidashiStyle>,
    /// Decoration style of a style block.
    pub style_type: Option<StyleType>,
    /// Annotation text carried by an annotation-range closer.
    pub annotation: Option<String>,
    /// Whether an opening parenthesis already stands before the block.
    pub has_open_paren: bool,
    /// Whether a closing parenthesis already stands after the block.
    pub has_close_paren: bool,
}

/// The model of all-empty block parameters.
pub open spec fn spec_params_default() -> BlockParamsM {
    BlockParamsM {
        width: None,
        wrap_width: None,
        level: None,
        font_size: None,
        is_block: false,
        midashi_style: None,
        style_type: None,
        annotation: None,
        has_open_paren: false,
        has_close_paren: false,
    }
}

impl BlockParams {
    /// The model of these parameters.
    pub open spec fn model(self) -> BlockParamsM {
        BlockParamsM {
            width: self.width,
            wrap_width: self.wrap_width,
            level: self.level,
            font_size: self.font_size,
            is_block: self.is_block,
            midashi_style: self.midashi_style,
            style_type: self.style_type,
            annotation: match self.annotation {
                Some(s) => Some(s@),
                None => None,
            },
            has_open_paren: self.has_open_paren,
            has_close_paren: self.has_close_paren,
        }
    }
}

impl Default for BlockParams {
    /// Parameters with every field empty.
    fn default() -> (r: Self)
        ensures
            r.model() == spec_params_default(),
    {
        BlockParams {
            width: None,
            wrap_width: None,
            level: None,
            font_size: None,
            is_block: false,
            midashi_style: None,
            style_type: None,
            annotation: None,
            has_open_paren: false,
            has_close_paren: false,
        }
    }
}

} // verus!
