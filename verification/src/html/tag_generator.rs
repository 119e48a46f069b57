//! HTML tags of block regions: pure functions from kind and parameters to
//! the exact tag text.

use vstd::prelude::*;

use crate::html::presentation::{midashi_combined_css_class, midashi_html_tag,
    spec_midashi_combined_css_class, spec_midashi_html_tag, spec_style_css_class,
    spec_style_html_tag, style_css_class, style_html_tag};
use crate::node::block::{BlockParams, BlockParamsM, BlockType};
use crate::node::midashi::{MidashiLevel, MidashiStyle};
use crate::strutil::{i64_to_string, spec_decimal, spec_decimal_i64, u32_to_string};

verus! {

/// The width parameter or its default.
pub open spec fn spec_width_or(p: BlockParamsM, d: u32) -> u32 {
    match p.width {
        Some(w) => w,
        None => d,
    }
}

/// The opening tag of a block region, given the anchor number where the
/// region is a heading.
pub open spec fn spec_block_start_tag(bt: BlockType, p: BlockParamsM, mid: u64) -> Seq<char> {
    match bt {
        BlockType::Jisage => match p.width {
            Some(w) => "<div class=\"jisage_"@ + spec_decimal(w as int)
                + "\" style=\"margin-left: "@ + spec_decimal(w as int) + "em\">"@,
            None => "<div class=\"jisage\">"@,
        },
        BlockType::Chitsuki => "<div class=\"chitsuki_"@ + spec_decimal(
            spec_width_or(p, 0) as int,
        ) + "\" style=\"text-align:right; margin-right: "@ + spec_decimal(
            spec_width_or(p, 0) as int,
        ) + "em\">"@,
        BlockType::Jizume => match p.width {
            Some(w) => "<div class=\"jizume_"@ + spec_decimal(w as int) + "\" style=\"width: "@
                + spec_decimal(w as int) + "em\">"@,
            None => "<div class=\"jizume\">"@,
        },
        BlockType::Keigakomi => if p.is_block {
            "<div class=\"keigakomi\" style=\"border: solid 1px\">"@
        } else {
            "<span class=\"keigakomi\">"@
        },
        BlockType::Midashi => {
            let level = match p.level {
                Some(l) => l,
                None => MidashiLevel::O,
            };
            let style = match p.midashi_style {
                Some(s) => s,
                None => MidashiStyle::Normal,
            };
            "<"@ + spec_midashi_html_tag(level) + " class=\""@
                + spec_midashi_combined_css_class(level, style)
                + "\"><a class=\"midashi_anchor\" id=\"midashi"@ + spec_decimal(mid as int)
                + "\">"@
        },
        BlockType::Yokogumi => if p.is_block {
            "<div class=\"yokogumi\">"@
        } else {
            "<span class=\"yokogumi\">"@
        },
        BlockType::Futoji => "<div class=\"futoji\">"@,
        BlockType::Shatai => "<div class=\"shatai\">"@,
        BlockType::FontDai => {
            let size = match p.font_size {
                Some(s) => s,
                None => 1u32,
            };
            let style = if size == 1 {
                "large"@
            } else if size == 2 {
                "x-large"@
            } else {
                "xx-large"@
            };
            (if p.is_block {
                "<div"@
            } else {
                "<span"@
            }) + " class=\"dai"@ + spec_decimal(size as int) + "\" style=\"font-size: "@ + style
                + ";\">"@
        },
        BlockType::FontSho => {
            let size = match p.font_size {
                Some(s) => s,
                None => 1u32,
            };
            let style = if size == 1 {
                "small"@
            } else if size == 2 {
                "x-small"@
            } else {
                "xx-small"@
            };
            (if p.is_block {
                "<div"@
            } else {
                "<span"@
            }) + " class=\"sho"@ + spec_decimal(size as int) + "\" style=\"font-size: "@ + style
                + ";\">"@
        },
        BlockType::Tcy => "<span dir=\"ltr\">"@,
        BlockType::Caption => if p.is_block {
            "<div class=\"caption\">"@
        } else {
            "<span class=\"caption\">"@
        },
        BlockType::Warigaki => "<span class=\"warichu\">"@ + (if p.has_open_paren {
            Seq::empty()
        } else {
            "（"@
        }),
        BlockType::Burasage => {
            let wrap = match p.wrap_width {
                Some(w) => w,
                None => 1u32,
            };
            let width = spec_width_or(p, 0);
            "<div class=\"burasage\" style=\"margin-left: "@ + spec_decimal(wrap as int)
                + "em; text-indent: "@ + spec_decimal_i64(width as int - wrap as int) + "em;\">"@
        },
        BlockType::Style => match p.style_type {
            Some(st) => "<"@ + spec_style_html_tag(st) + " class=\""@ + spec_style_css_class(st)
                + "\">"@,
            None => "<span>"@,
        },
        BlockType::AnnotationRange => Seq::empty(),
        BlockType::LeftAnnotationRange => Seq::empty(),
    }
}

/// The closing tag of a block region.
pub open spec fn spec_block_end_tag(bt: BlockType, p: BlockParamsM) -> Seq<char> {
    match bt {
        BlockType::Jisage => "</div>"@,
        BlockType::Chitsuki => "</div>"@,
        BlockType::Jizume => "</div>"@,
        BlockType::Futoji => "</div>"@,
        BlockType::Shatai => "</div>"@,
        BlockType::Burasage => "</div>"@,
        BlockType::Keigakomi => if p.is_block {
            "</div>"@
        } else {
            "</span>"@
        },
        BlockType::Yokogumi => if p.is_block {
            "</div>"@
        } else {
            "</span>"@
        },
        BlockType::Midashi => {
            let level = match p.level {
                Some(l) => l,
                None => MidashiLevel::O,
            };
            "</a></"@ + spec_midashi_html_tag(level) + ">"@
        },
        BlockType::FontDai => if p.is_block {
            "</div>"@
        } else {
            "</span>"@
        },
        BlockType::FontSho => if p.is_block {
            "</div>"@
        } else {
            "</span>"@
        },
        BlockType::Tcy => "</span>"@,
        BlockType::Caption => if p.is_block {
            "</div>"@
        } else {
            "</span>"@
        },
        BlockType::Warigaki => (if p.has_close_paren {
            Seq::empty()
        } else {
            "）"@
        }) + "</span>"@,
        BlockType::Style => match p.style_type {
            Some(st) => "</"@ + spec_style_html_tag(st) + ">"@,
            None => "</span>"@,
        },
        BlockType::AnnotationRange => Seq::empty(),
        BlockType::LeftAnnotationRange => Seq::empty(),
    }
}

/// Build the opening tag of a block region.
pub fn generate_block_start_tag(
    block_type: &BlockType,
    params: &BlockParams,
    midashi_id: Option<u64>,
) -> (r: String)
    ensures
        r@ == spec_block_start_tag(*block_type, params.model(), match midashi_id {
            Some(m) => m,
            None => 0u64,
        }),
{
    let mid: u64 = match midashi_id {
        Some(m) => m,
        None => 0,
    };
    let mut r = String::new();
    match block_type {
        BlockType::Jisage => {
            match params.width {
                Some(w) => {
                    r.append("<div class=\"jisage_");
                    let ws = u32_to_string(w);
                    r.append(ws.as_str());
                    r.append("\" style=\"margin-left: ");
                    r.append(ws.as_str());
                    r.append("em\">");
                },
                None => r.append("<div class=\"jisage\">"),
            }
        },
        BlockType::Chitsuki => {
            let w: u32 = match params.width {
                Some(w) => w,
                None => 0,
            };
            let ws = u32_to_string(w);
            r.append("<div class=\"chitsuki_");
            r.append(ws.as_str());
            r.append("\" style=\"text-align:right; margin-right: ");
            r.append(ws.as_str());
            r.append("em\">");
        },
        BlockType::Jizume => {
            match params.width {
                Some(w) => {
                    r.append("<div class=\"jizume_");
                    let ws = u32_to_string(w);
                    r.append(ws.as_str());
                    r.append("\" style=\"width: ");
                    r.append(ws.as_str());
                    r.append("em\">");
                },
                None => r.append("<div class=\"jizume\">"),
            }
        },
        BlockType::Keigakomi => {
            if params.is_block {
                r.append("<div class=\"keigakomi\" style=\"border: solid 1px\">");
            } else {
                r.append("<span class=\"keigakomi\">");
            }
        },
        BlockType::Midashi => {
            let level = match params.level {
                Some(l) => l,
                None => MidashiLevel::O,
            };
            let style = match params.midashi_style {
                Some(s) => s,
                None => MidashiStyle::Normal,
            };
            r.append("<");
            r.append(midashi_html_tag(level));
            r.append(" class=\"");
            let cls = midashi_combined_css_class(level, style);
            r.append(cls.as_str());
            r.append("\"><a class=\"midashi_anchor\" id=\"midashi");
            let ms = crate::strutil::u64_to_string(mid);
            r.append(ms.as_str());
            r.append("\">");
        },
        BlockType::Yokogumi => {
            if params.is_block {
                r.append("<div class=\"yokogumi\">");
            } else {
                r.append("<span class=\"yokogumi\">");
            }
        },
        BlockType::Futoji => r.append("<div class=\"futoji\">"),
        BlockType::Shatai => r.append("<div class=\"shatai\">"),
        BlockType::FontDai => {
            let size: u32 = match params.font_size {
                Some(s) => s,
                None => 1,
            };
            if params.is_block {
                r.append("<div");
            } else {
                r.append("<span");
            }
            r.append(" class=\"dai");
            let ss = u32_to_string(size);
            r.append(ss.as_str());
            r.append("\" style=\"font-size: ");
            if size == 1 {
                r.append("large");
            } else if size == 2 {
                r.append("x-large");
            } else {
                r.append("xx-large");
            }
            r.append(";\">");
        },
        BlockType::FontSho => {
            let size: u32 = match params.font_size {
                Some(s) => s,
                None => 1,
            };
            if params.is_block {
                r.append("<div");
            } else {
                r.append("<span");
            }
            r.append(" class=\"sho");
            let ss = u32_to_string(size);
            r.append(ss.as_str());
            r.append("\" style=\"font-size: ");
            if size == 1 {
                r.append("small");
            } else if size == 2 {
                r.append("x-small");
            } else {
                r.append("xx-small");
            }
            r.append(";\">");
        },
        BlockType::Tcy => r.append("<span dir=\"ltr\">"),
        BlockType::Caption => {
            if params.is_block {
                r.append("<div class=\"caption\">");
            } else {
                r.append("<span class=\"caption\">");
            }
        },
        BlockType::Warigaki => {
            r.append("<span class=\"warichu\">");
            if !params.has_open_paren {
                r.append("（");
            }
        },
        BlockType::Burasage => {
            let wrap: u32 = match params.wrap_width {
                Some(w) => w,
                None => 1,
            };
            let width: u32 = match params.width {
                Some(w) => w,
                None => 0,
            };
            r.append("<div class=\"burasage\" style=\"margin-left: ");
            let ws = u32_to_string(wrap);
            r.append(ws.as_str());
            r.append("em; text-indent: ");
            let ti: i64 = width as i64 - wrap as i64;
            let ts = i64_to_string(ti);
            r.append(ts.as_str());
            r.append("em;\">");
        },
        BlockType::Style => {
            match params.style_type {
                Some(st) => {
                    r.append("<");
                    r.append(style_html_tag(st));
                    r.append(" class=\"");
                    r.append(style_css_class(st));
                    r.append("\">");
                },
                None => r.append("<span>"),
            }
        },
        BlockType::AnnotationRange => {},
        BlockType::LeftAnnotationRange => {},
    }
    proof {
        assert(r@ =~= spec_block_start_tag(*block_type, params.model(), mid));
    }
    r
}

/// Build the closing tag of a block region.
pub fn generate_block_end_tag(block_type: &BlockType, params: &BlockParams) -> (r: String)
    ensures
        r@ == spec_block_end_tag(*block_type, params.model()),
{
    let mut r = String::new();
    match block_type {
        BlockType::Jisage
        | BlockType::Chitsuki
        | BlockType::Jizume
        | BlockType::Futoji
        | BlockType::Shatai
        | BlockType::Burasage => r.append("</div>"),
        BlockType::Keigakomi | BlockType::Yokogumi | BlockType::FontDai | BlockType::FontSho
        | BlockType::Caption => {
            if params.is_block {
                r.append("</div>");
            } else {
                r.append("</span>");
            }
        },
        BlockType::Midashi => {
            let level = match params.level {
                Some(l) => l,
                None => MidashiLevel::O,
            };
            r.append("</a></");
            r.append(midashi_html_tag(level));
            r.append(">");
        },
        BlockType::Tcy => r.append("</span>"),
        BlockType::Warigaki => {
            if !params.has_close_paren {
                r.append("）");
            }
            r.append("</span>");
        },
        BlockType::Style => {
            match params.style_type {
                Some(st) => {
                    r.append("</");
                    r.append(style_html_tag(st));
                    r.append(">");
                },
                None => r.append("</span>"),
            }
        },
        BlockType::AnnotationRange => {},
        BlockType::LeftAnnotationRange => {},
    }
    proof {
        assert(r@ =~= spec_block_end_tag(*block_type, params.model()));
    }
    r
}

} // verus!
