//! Presentation tables: CSS class names and HTML tag names, escaping, and
//! line-shape tests used when lines are assembled.

use vstd::prelude::*;

use crate::node::style::StyleType;
use crate::node::midashi::{MidashiLevel, MidashiStyle};
use crate::strutil::{chars_range_to_string, chars_to_string, ends_with_pat, eq_pat, find_pat,
    find_pat_from,
    lemma_spec_find_from, push_char, spec_contains, spec_ends_with, spec_find, spec_starts_with,
    starts_with_pat, str_to_chars, sub_at, contains_pat, chars_subrange};
use crate::jis_table::{spec_code_groups, code_groups};

verus! {

/// How a rendered line behaves in the flow.
#[derive(Debug, Clone, Copy, PartialEq, Eq, Structural)]
pub enum LineType {
    /// Nothing on the line.
    Empty,
    /// A block element: no break tag, no hanging-indent wrap.
    Block,
    /// Inline content: gets a break tag and may be wrapped.
    Inline,
}

/// The flow kind of a rendered line: empty, starting or ending in a block
/// element, or inline.
pub open spec fn spec_classify_line(h: Seq<char>) -> LineType {
    if h.len() == 0 {
        LineType::Empty
    } else if spec_starts_with(h, "<div class=\""@) || spec_starts_with(h, "<h3"@)
        || spec_starts_with(h, "<h4"@) || spec_starts_with(h, "<h5"@) || spec_ends_with(
        h,
        "</div>"@,
    ) || spec_ends_with(h, "</h3>"@) || spec_ends_with(h, "</h4>"@) || spec_ends_with(
        h,
        "</h5>"@,
    ) {
        LineType::Block
    } else {
        LineType::Inline
    }
}

/// Classify a rendered line for flow.
pub fn classify_line(html: &str) -> (r: LineType)
    ensures
        r == spec_classify_line(html@),
{
    let v = str_to_chars(html);
    if v.len() == 0 {
        return LineType::Empty;
    }
    if starts_with_pat(&v, &str_to_chars("<div class=\"")) || starts_with_pat(
        &v,
        &str_to_chars("<h3"),
    ) || starts_with_pat(&v, &str_to_chars("<h4")) || starts_with_pat(&v, &str_to_chars("<h5"))
        || ends_with_pat(&v, &str_to_chars("</div>")) || ends_with_pat(
        &v,
        &str_to_chars("</h3>"),
    ) || ends_with_pat(&v, &str_to_chars("</h4>")) || ends_with_pat(&v, &str_to_chars("</h5>")) {
        return LineType::Block;
    }
    LineType::Inline
}

/// The CSS class of a decoration style.
pub open spec fn spec_style_css_class(t: StyleType) -> Seq<char> {
    match t {
        StyleType::SesameDot => "sesame_dot"@,
        StyleType::WhiteSesameDot => "white_sesame_dot"@,
        StyleType::BlackCircle => "black_circle"@,
        StyleType::WhiteCircle => "white_circle"@,
        StyleType::BlackTriangle => "black_up-pointing_triangle"@,
        StyleType::WhiteTriangle => "white_up-pointing_triangle"@,
        StyleType::Bullseye => "bullseye"@,
        StyleType::Fisheye => "fisheye"@,
        StyleType::Saltire => "saltire"@,
        StyleType::SesameDotAfter => "sesame_dot_after"@,
        StyleType::WhiteSesameDotAfter => "white_sesame_dot_after"@,
        StyleType::BlackCircleAfter => "black_circle_after"@,
        StyleType::WhiteCircleAfter => "white_circle_after"@,
        StyleType::BlackTriangleAfter => "black_up-pointing_triangle_after"@,
        StyleType::WhiteTriangleAfter => "white_up-pointing_triangle_after"@,
        StyleType::BullseyeAfter => "bullseye_after"@,
        StyleType::FisheyeAfter => "fisheye_after"@,
        StyleType::SaltireAfter => "saltire_after"@,
        StyleType::UnderlineSolid => "underline_solid"@,
        StyleType::UnderlineDouble => "underline_double"@,
        StyleType::UnderlineDotted => "underline_dotted"@,
        StyleType::UnderlineDashed => "underline_dashed"@,
        StyleType::UnderlineWave => "underline_wave"@,
        StyleType::OverlineSolid => "overline_solid"@,
        StyleType::OverlineDouble => "overline_double"@,
        StyleType::OverlineDotted => "overline_dotted"@,
        StyleType::OverlineDashed => "overline_dashed"@,
        StyleType::OverlineWave => "overline_wave"@,
        StyleType::Bold => "futoji"@,
        StyleType::Italic => "shatai"@,
        StyleType::Subscript => "subscript"@,
        StyleType::Superscript => "superscript"@,
    }
}

/// The CSS class of a decoration style.
pub fn style_css_class(style_type: StyleType) -> (r: &'static str)
    ensures
        r@ == spec_style_css_class(style_type),
{
    match style_type {
        StyleType::SesameDot => "sesame_dot",
        StyleType::WhiteSesameDot => "white_sesame_dot",
        StyleType::BlackCircle => "black_circle",
        StyleType::WhiteCircle => "white_circle",
        StyleType::BlackTriangle => "black_up-pointing_triangle",
        StyleType::WhiteTriangle => "white_up-pointing_triangle",
        StyleType::Bullseye => "bullseye",
        StyleType::Fisheye => "fisheye",
        StyleType::Saltire => "saltire",
        StyleType::SesameDotAfter => "sesame_dot_after",
        StyleType::WhiteSesameDotAfter => "white_sesame_dot_after",
        StyleType::BlackCircleAfter => "black_circle_after",
        StyleType::WhiteCircleAfter => "white_circle_after",
        StyleType::BlackTriangleAfter => "black_up-pointing_triangle_after",
        StyleType::WhiteTriangleAfter => "white_up-pointing_triangle_after",
        StyleType::BullseyeAfter => "bullseye_after",
        StyleType::FisheyeAfter => "fisheye_after",
        StyleType::SaltireAfter => "saltire_after",
        StyleType::UnderlineSolid => "underline_solid",
        StyleType::UnderlineDouble => "underline_double",
        StyleType::UnderlineDotted => "underline_dotted",
        StyleType::UnderlineDashed => "underline_dashed",
        StyleType::UnderlineWave => "underline_wave",
        StyleType::OverlineSolid => "overline_solid",
        StyleType::OverlineDouble => "overline_double",
        StyleType::OverlineDotted => "overline_dotted",
        StyleType::OverlineDashed => "overline_dashed",
        StyleType::OverlineWave => "overline_wave",
        StyleType::Bold => "futoji",
        StyleType::Italic => "shatai",
        StyleType::Subscript => "subscript",
        StyleType::Superscript => "superscript",
    }
}

/// The HTML tag of a decoration style: sub- and superscript keep their own
/// tags, plain character styles use a span, every dot and line uses em.
pub open spec fn spec_style_html_tag(t: StyleType) -> Seq<char> {
    match t {
        StyleType::Subscript => "sub"@,
        StyleType::Superscript => "sup"@,
        StyleType::Bold => "span"@,
        StyleType::Italic => "span"@,
        _ => "em"@,
    }
}

/// The HTML tag of a decoration style.
pub fn style_html_tag(style_type: StyleType) -> (r: &'static str)
    ensures
        r@ == spec_style_html_tag(style_type),
{
    match style_type {
        StyleType::Subscript => "sub",
        StyleType::Superscript => "sup",
        StyleType::Bold | StyleType::Italic => "span",
        _ => "em",
    }
}

/// The level part of a heading class.
pub open spec fn spec_midashi_level_class(level: MidashiLevel) -> Seq<char> {
    match level {
        MidashiLevel::O => "o"@,
        MidashiLevel::Naka => "naka"@,
        MidashiLevel::Ko => "ko"@,
    }
}

/// The combined CSS class of a heading level and style.
pub open spec fn spec_midashi_combined_css_class(
    level: MidashiLevel,
    style: MidashiStyle,
) -> Seq<char> {
    let l = spec_midashi_level_class(level);
    match style {
        MidashiStyle::Normal => l + "-midashi"@,
        MidashiStyle::Dogyo => "dogyo-"@ + l + "-midashi"@,
        MidashiStyle::Mado => "mado-"@ + l + "-midashi"@,
    }
}

/// The combined CSS class of a heading level and style.
pub fn midashi_combined_css_class(level: MidashiLevel, style: MidashiStyle) -> (r: String)
    ensures
        r@ == spec_midashi_combined_css_class(level, style),
{
    let mut r = String::new();
    match style {
        MidashiStyle::Normal => {},
        MidashiStyle::Dogyo => r.append("dogyo-"),
        MidashiStyle::Mado => r.append("mado-"),
    }
    match level {
        MidashiLevel::O => r.append("o"),
        MidashiLevel::Naka => r.append("naka"),
        MidashiLevel::Ko => r.append("ko"),
    }
    r.append("-midashi");
    proof {
        assert(r@ =~= spec_midashi_combined_css_class(level, style));
    }
    r
}

/// The heading tag of a level.
pub open spec fn spec_midashi_html_tag(level: MidashiLevel) -> Seq<char> {
    match level {
        MidashiLevel::O => "h3"@,
        MidashiLevel::Naka => "h4"@,
        MidashiLevel::Ko => "h5"@,
    }
}

/// The heading tag of a level.
pub fn midashi_html_tag(level: MidashiLevel) -> (r: &'static str)
    ensures
        r@ == spec_midashi_html_tag(level),
{
    match level {
        MidashiLevel::O => "h3",
        MidashiLevel::Naka => "h4",
        MidashiLevel::Ko => "h5",
    }
}

/// One character escaped for HTML text.
pub open spec fn spec_escape_char(c: char) -> Seq<char> {
    if c == '&' {
        "&amp;"@
    } else if c == '<' {
        "&lt;"@
    } else if c == '>' {
        "&gt;"@
    } else if c == '"' {
        "&quot;"@
    } else {
        seq![c]
    }
}

/// The text escaped for HTML: ampersands, angle brackets and double quotes
/// replaced by entities.
pub open spec fn spec_html_escape(s: Seq<char>) -> Seq<char>
    decreases s.len(),
{
    if s.len() == 0 {
        Seq::empty()
    } else {
        spec_html_escape(s.drop_last()) + spec_escape_char(s.last())
    }
}

/// Escape text for HTML.
pub fn html_escape(s: &str) -> (r: String)
    ensures
        r@ == spec_html_escape(s@),
{
    let v = str_to_chars(s);
    let n = v.len();
    let mut r = String::new();
    let mut i: usize = 0;
    proof {
        assert(v@.subrange(0, 0) =~= Seq::<char>::empty());
        assert(r@ =~= spec_html_escape(v@.subrange(0, 0)));
    }
    while i < n
        invariant
            i <= n,
            n == v@.len(),
            v@ == s@,
            r@ == spec_html_escape(s@.subrange(0, i as int)),
        decreases n - i,
    {
        let c = v[i];
        proof {
            reveal_strlit("&amp;");
            reveal_strlit("&lt;");
            reveal_strlit("&gt;");
            reveal_strlit("&quot;");
            assert(s@.subrange(0, i as int + 1).drop_last() =~= s@.subrange(0, i as int));
            assert(s@.subrange(0, i as int + 1).last() == s@[i as int]);
        }
        if c == '&' {
            r.append("&amp;");
        } else if c == '<' {
            r.append("&lt;");
        } else if c == '>' {
            r.append("&gt;");
        } else if c == '"' {
            r.append("&quot;");
        } else {
            push_char(&mut r, c);
        }
        i += 1;
    }
    proof {
        assert(s@.subrange(0, n as int) =~= s@);
    }
    r
}

/// The image folder and file stem of a code: the folder is the plane and
/// row, the stem the whole code. A code without three groups gets an empty
/// folder.
pub open spec fn spec_jis_code_to_path(code: Seq<char>) -> (Seq<char>, Seq<char>) {
    match spec_code_groups(code) {
        Some((p, r, c)) => (p + "-"@ + r, code),
        None => (Seq::empty(), code),
    }
}

/// Split a code into its image folder and file stem.
pub fn jis_code_to_path(jis_code: &str) -> (r: (String, String))
    ensures
        r.0@ == spec_jis_code_to_path(jis_code@).0,
        r.1@ == spec_jis_code_to_path(jis_code@).1,
{
    let v = str_to_chars(jis_code);
    match code_groups(&v) {
        Some((p, rr, _c)) => {
            let mut folder = chars_to_string(&p);
            folder.append("-");
            let rs = chars_to_string(&rr);
            folder.append(rs.as_str());
            proof {
                assert(folder@ =~= spec_jis_code_to_path(jis_code@).0);
            }
            (folder, chars_to_string(&v))
        },
        None => (String::new(), chars_to_string(&v)),
    }
}

/// Whether a rendered line is block-only, so that no break tag follows it:
/// it already ends in a break or a block closer, ends in a heading closer
/// that is not a same-line or window heading, ends in an opening division
/// or heading-anchor tag, or is one single tag.
pub fn is_block_only_line(html: &str) -> (r: bool)
{
    let v = str_to_chars(html);
    if ends_with_pat(&v, &str_to_chars("<br />")) {
        return true;
    }
    if ends_with_pat(&v, &str_to_chars("</p>")) {
        return true;
    }
    let heading_end = ends_with_pat(&v, &str_to_chars("</h1>")) || ends_with_pat(
        &v,
        &str_to_chars("</h2>"),
    ) || ends_with_pat(&v, &str_to_chars("</h3>")) || ends_with_pat(&v, &str_to_chars("</h4>"))
        || ends_with_pat(&v, &str_to_chars("</h5>")) || ends_with_pat(&v, &str_to_chars("</h6>"));
    if heading_end {
        if !contains_pat(&v, &str_to_chars("dogyo-")) && !contains_pat(
            &v,
            &str_to_chars("mado-"),
        ) {
            return true;
        }
    }
    if ends_with_pat(&v, &str_to_chars("</div>")) {
        return true;
    }
    if ends_with_pat(&v, &str_to_chars(">")) {
        if let Some(last_lt) = rfind_last_lt(&v) {
            let tail = chars_subrange(&v, last_lt, v.len());
            if starts_with_pat(&tail, &str_to_chars("<div")) && !starts_with_pat(
                &tail,
                &str_to_chars("</div"),
            ) {
                return true;
            }
            if starts_with_pat(&tail, &str_to_chars("<a class=\"midashi_anchor\"")) {
                return true;
            }
        }
    }
    if ends_with_pat(&v, &str_to_chars("\">")) {
        if contains_pat(&v, &str_to_chars("<h3")) || contains_pat(&v, &str_to_chars("<h4"))
            || contains_pat(&v, &str_to_chars("<h5")) {
            return true;
        }
    }
    if v.len() > 2 && starts_with_pat(&v, &str_to_chars("<")) && ends_with_pat(
        &v,
        &str_to_chars(">"),
    ) {
        if ends_with_pat(&v, &str_to_chars(" />")) || ends_with_pat(&v, &str_to_chars("/>")) {
            return false;
        }
        let inner = chars_subrange(&v, 1, v.len() - 1);
        if !contains_pat(&inner, &str_to_chars(">")) {
            return true;
        }
    }
    false
}

/// The last `<` of a rendered line.
fn rfind_last_lt(v: &Vec<char>) -> (r: Option<usize>)
    ensures
        match r {
            Some(i) => i < v@.len(),
            None => true,
        },
{
    let mut i: usize = v.len();
    while i > 0
        invariant
            i <= v@.len(),
        decreases i,
    {
        if v[i - 1] == '<' {
            return Some(i - 1);
        }
        i -= 1;
    }
    None
}

/// Whether `c` separates a link label from the text before it.
fn is_label_separator(c: char) -> bool {
    c == '、' || c == '。' || c == '！' || c == '？' || c == '\u{3000}' || c == ' '
        || c == '「' || c == '『' || c == '（' || c == '\n'
}

/// The start of the label before a link: just past the last separator.
fn find_label_start(v: &Vec<char>, upto: usize) -> (r: usize)
    requires
        upto <= v@.len(),
    ensures
        r <= upto,
{
    let mut i: usize = upto;
    while i > 0
        invariant
            i <= upto <= v@.len(),
        decreases i,
    {
        if is_label_separator(v[i - 1]) {
            return i;
        }
        i -= 1;
    }
    0
}

/// Turn `label（http://...）` phrases in colophon text into links: the URL
/// in fullwidth parentheses becomes the link target, and the label runs
/// from the separator before it. The text after the phrase is processed
/// the same way.
pub fn auto_link(text: &str) -> (r: String)
{
    let v = str_to_chars(text);
    auto_link_chars(&v)
}

fn auto_link_chars(v: &Vec<char>) -> (r: String)
    decreases v@.len(),
{
    let n = v.len();
    let http = str_to_chars("（http://");
    let https = str_to_chars("（https://");
    let mut paren: Option<usize> = None;
    match find_pat(v, &http) {
        Some(i) => {
            paren = Some(i);
        },
        None => {
            match find_pat(v, &https) {
                Some(i) => {
                    paren = Some(i);
                },
                None => {},
            }
        },
    }
    proof {
        reveal_strlit("（http://");
        reveal_strlit("（https://");
        lemma_spec_find_from(v@, http@, 0);
        lemma_spec_find_from(v@, https@, 0);
    }
    let paren_pos = match paren {
        Some(i) => i,
        None => {
            return chars_to_string(v);
        },
    };
    let close = str_to_chars("）");
    let close_pos = match find_pat_from(v, &close, paren_pos) {
        Some(i) => i,
        None => {
            return chars_to_string(v);
        },
    };
    proof {
        reveal_strlit("）");
        lemma_spec_find_from(v@, close@, paren_pos as int);
    }
    if close_pos >= n || close_pos < paren_pos + 1 {
        return chars_to_string(v);
    }
    let url = chars_range_to_string(v, paren_pos + 1, close_pos);
    let label_start = find_label_start(v, paren_pos);
    let before_label = chars_range_to_string(v, 0, label_start);
    let label = chars_range_to_string(v, label_start, paren_pos);
    let suffix = chars_subrange(v, close_pos + 1, n);
    let mut r = before_label;
    r.append("<a href=\"");
    r.append(url.as_str());
    r.append("\">");
    r.append(label.as_str());
    r.append("（");
    r.append(url.as_str());
    r.append("）</a>");
    let rest = auto_link_chars(&suffix);
    r.append(rest.as_str());
    r
}

} // verus!
