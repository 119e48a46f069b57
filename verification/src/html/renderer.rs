//! The HTML renderer: walks resolved nodes, drives the block state machine,
//! and assembles lines and document sections. The tag text itself is
//! presentation data; its exact strings live in the tag and class tables,
//! which carry the precise contracts.

use vstd::prelude::*;

use crate::document::{extract_bibliographical_lines, extract_body_lines, extract_header_info,
    HeaderInfo};
use crate::gaiji::{parse_gaiji, GaijiResult};
use crate::html::block_manager::BlockManager;
use crate::html::options::RenderOptions;
use crate::html::presentation::{html_escape, is_block_only_line, jis_code_to_path,
    midashi_combined_css_class, midashi_html_tag, style_css_class, style_html_tag};
use crate::node::{BlockParams, BlockType, MidashiLevel, MidashiStyle, Node, RubyDirection,
    StyleType, FontSizeType};
use crate::parser::parse;
use crate::parser::reference_resolver::resolve_inline_ruby;
use crate::strutil::{contains_pat, i64_to_string, starts_with_pat, str_to_chars, u32_to_string,
    u64_to_string};
use crate::tokenizer::tokenize;

verus! {

/// The HTML renderer: options, the stack of open regions, and which
/// notation notes the document will need.
pub struct HtmlRenderer {
    /// Rendering options.
    pub options: RenderOptions,
    /// The open block regions.
    pub manager: BlockManager,
    /// Whether an editor note was emitted.
    pub has_notes: bool,
    /// Whether a glyph image was emitted.
    pub has_gaiji_images: bool,
    /// Whether an accented character was emitted.
    pub has_accent: bool,
    /// Whether a character beyond the base set was emitted.
    pub has_jisx0213: bool,
}

/// The numeric character references of a string.
fn numeric_refs(s: &str) -> (r: String) {
    let v = str_to_chars(s);
    let mut r = String::new();
    let mut i: usize = 0;
    while i < v.len()
        invariant
            i <= v@.len(),
        decreases v@.len() - i,
    {
        r.append("&#");
        let d = u32_to_string(v[i] as u32);
        r.append(d.as_str());
        r.append(";");
        i += 1;
    }
    r
}

impl HtmlRenderer {
    /// A renderer with nothing rendered yet.
    pub fn new(options: RenderOptions) -> (r: Self)
        ensures
            !r.has_notes && !r.has_gaiji_images && !r.has_accent && !r.has_jisx0213,
    {
        HtmlRenderer {
            options,
            manager: BlockManager::new(),
            has_notes: false,
            has_gaiji_images: false,
            has_accent: false,
            has_jisx0213: false,
        }
    }

    /// How many block regions are open.
    pub fn stack_len(&self) -> usize {
        self.manager.stack_len()
    }

    /// The wrap width and text indent of the innermost open hanging indent.
    pub fn find_burasage_context(&self) -> Option<(u32, i64)> {
        self.manager.find_burasage_context()
    }

    /// Render a glyph image tag.
    fn gaiji_img(&self, jis: &str, alt: &str) -> String {
        let (folder, file) = jis_code_to_path(jis);
        let mut r = String::from_str("<img src=\"");
        r.append(self.options.gaiji_dir.as_str());
        r.append(folder.as_str());
        r.append("/");
        r.append(file.as_str());
        r.append(".png\" alt=\"※(");
        let ealt = html_escape(alt);
        r.append(ealt.as_str());
        r.append(")\" class=\"gaiji\" />");
        r
    }

    /// Render one glyph node.
    fn render_gaiji(&mut self, description: &str, unicode: Option<&String>, jis_code: Option<
        &String,
    >) -> String {
        match (unicode, jis_code) {
            (Some(u), Some(jis)) => {
                self.has_jisx0213 = true;
                if self.options.use_jisx0213 || self.options.use_unicode {
                    numeric_refs(u.as_str())
                } else {
                    self.has_gaiji_images = true;
                    self.gaiji_img(jis.as_str(), description)
                }
            },
            (Some(u), None) => {
                if self.options.use_unicode {
                    numeric_refs(u.as_str())
                } else {
                    u.clone()
                }
            },
            (None, Some(jis)) => {
                self.has_gaiji_images = true;
                self.gaiji_img(jis.as_str(), description)
            },
            (None, None) => {
                match parse_gaiji(description) {
                    GaijiResult::Unicode(s) => {
                        if self.options.use_unicode {
                            numeric_refs(s.as_str())
                        } else {
                            s
                        }
                    },
                    GaijiResult::JisConverted { jis_code, unicode } => {
                        self.has_jisx0213 = true;
                        if self.options.use_jisx0213 || self.options.use_unicode {
                            numeric_refs(unicode.as_str())
                        } else {
                            self.has_gaiji_images = true;
                            self.gaiji_img(jis_code.as_str(), description)
                        }
                    },
                    GaijiResult::JisImage { jis_code } => {
                        self.has_gaiji_images = true;
                        self.gaiji_img(jis_code.as_str(), description)
                    },
                    GaijiResult::Unconvertible => {
                        let mut r = String::from_str("<span class=\"notes\">※［＃");
                        let e = html_escape(description);
                        r.append(e.as_str());
                        r.append("］</span>");
                        r
                    },
                }
            },
        }
    }

    /// Render an image node.
    fn render_img(&self, filename: &str, alt: &str, css_class: &str, width: Option<u32>, height:
        Option<u32>) -> String {
        let mut r = String::from_str("<img src=\"");
        r.append(self.options.gaiji_dir.as_str());
        r.append(filename);
        r.append("\" alt=\"");
        let ealt = html_escape(alt);
        r.append(ealt.as_str());
        r.append("\"");
        let cv = str_to_chars(css_class);
        if cv.len() > 0 {
            r.append(" class=\"");
            r.append(css_class);
            r.append("\"");
        }
        match width {
            Some(w) => {
                r.append(" width=\"");
                let ws = u32_to_string(w);
                r.append(ws.as_str());
                r.append("\"");
            },
            None => {},
        }
        match height {
            Some(h) => {
                r.append(" height=\"");
                let hs = u32_to_string(h);
                r.append(hs.as_str());
                r.append("\"");
            },
            None => {},
        }
        r.append(" />");
        r
    }

    /// Render a list of nodes.
    pub fn render_nodes(&mut self, nodes: &Vec<Node>) -> (r: String)
        decreases nodes,
    {
        let mut r = String::new();
        let mut i: usize = 0;
        while i < nodes.len()
            invariant
                i <= nodes@.len(),
            decreases nodes@.len() - i,
        {
            let piece = self.render_node(&nodes[i]);
            r.append(piece.as_str());
            i += 1;
        }
        r
    }

    /// Render one node, driving the block state machine for block markers.
    pub fn render_node(&mut self, node: &Node) -> (r: String)
        decreases node,
    {
        match node {
            Node::Text(text) => html_escape(text.as_str()),
            Node::Ruby { children, ruby, direction } => {
                let base_html = self.render_nodes(children);
                let ruby_html = self.render_nodes(ruby);
                let ruby_html = replace_nbsp(ruby_html);
                let mut r = if matches!(direction, RubyDirection::Right) {
                    String::from_str("<ruby><rb>")
                } else {
                    String::from_str("<ruby class=\"leftrb\"><rb>")
                };
                r.append(base_html.as_str());
                r.append("</rb><rp>（</rp><rt>");
                r.append(ruby_html.as_str());
                r.append("</rt><rp>）</rp></ruby>");
                r
            },
            Node::Style { children, style_type, .. } => {
                let inner = self.render_nodes(children);
                let tag = style_html_tag(*style_type);
                let class = style_css_class(*style_type);
                let mut r = String::from_str("<");
                r.append(tag);
                r.append(" class=\"");
                r.append(class);
                r.append("\">");
                r.append(inner.as_str());
                r.append("</");
                r.append(tag);
                r.append(">");
                r
            },
            Node::Midashi { children, level, style } => {
                let inner = self.render_nodes(children);
                let tag = midashi_html_tag(*level);
                let class = midashi_combined_css_class(*level, *style);
                let mid = self.manager.generate_midashi_id(*level);
                let mut r = String::from_str("<");
                r.append(tag);
                r.append(" class=\"");
                r.append(class.as_str());
                r.append("\"><a class=\"midashi_anchor\" id=\"midashi");
                let ms = u64_to_string(mid);
                r.append(ms.as_str());
                r.append("\">");
                r.append(inner.as_str());
                r.append("</a></");
                r.append(tag);
                r.append(">");
                r
            },
            Node::FontSize { children, size_type, level } => {
                let inner = self.render_nodes(children);
                let mut r = String::from_str("<span class=\"");
                if matches!(size_type, FontSizeType::Dai) {
                    r.append("dai");
                } else {
                    r.append("sho");
                }
                let ls = u32_to_string(*level);
                r.append(ls.as_str());
                r.append("\" style=\"font-size: ");
                let style = if matches!(size_type, FontSizeType::Dai) {
                    if *level == 1 {
                        "large"
                    } else if *level == 2 {
                        "x-large"
                    } else {
                        "xx-large"
                    }
                } else {
                    if *level == 1 {
                        "small"
                    } else if *level == 2 {
                        "x-small"
                    } else {
                        "xx-small"
                    }
                };
                r.append(style);
                r.append(";\">");
                r.append(inner.as_str());
                r.append("</span>");
                r
            },
            Node::Gaiji { description, unicode, jis_code } => {
                self.render_gaiji(description.as_str(), unicode.as_ref(), jis_code.as_ref())
            },
            Node::Accent { code, name, unicode } => {
                self.has_accent = true;
                if self.options.use_jisx0213 || self.options.use_unicode {
                    match unicode {
                        Some(u) => numeric_refs(u.as_str()),
                        None => String::new(),
                    }
                } else {
                    self.has_gaiji_images = true;
                    self.gaiji_img(code.as_str(), name.as_str())
                }
            },
            Node::Img { filename, alt, css_class, width, height } => {
                self.render_img(
                    filename.as_str(),
                    alt.as_str(),
                    css_class.as_str(),
                    *width,
                    *height,
                )
            },
            Node::Tcy { children } => {
                let inner = self.render_nodes(children);
                let mut r = String::from_str("<span class=\"tcy\">");
                r.append(inner.as_str());
                r.append("</span>");
                r
            },
            Node::Keigakomi { children } => {
                let inner = self.render_nodes(children);
                let mut r = String::from_str("<span class=\"keigakomi\">");
                r.append(inner.as_str());
                r.append("</span>");
                r
            },
            Node::Yokogumi { children } => {
                let inner = self.render_nodes(children);
                let mut r = String::from_str("<span class=\"yokogumi\">");
                r.append(inner.as_str());
                r.append("</span>");
                r
            },
            Node::Caption { children } => {
                let inner = self.render_nodes(children);
                let mut r = String::from_str("<span class=\"caption\">");
                r.append(inner.as_str());
                r.append("</span>");
                r
            },
            Node::Warigaki { upper, lower } => {
                let u = self.render_nodes(upper);
                let l = self.render_nodes(lower);
                let mut r = String::from_str("<span class=\"warichu\"><span class=\"warichu_upper\">");
                r.append(u.as_str());
                r.append("</span><span class=\"warichu_lower\">");
                r.append(l.as_str());
                r.append("</span></span>");
                r
            },
            Node::Kaeriten(text) => {
                let mut r = String::from_str("<sub class=\"kaeriten\">");
                let e = html_escape(text.as_str());
                r.append(e.as_str());
                r.append("</sub>");
                r
            },
            Node::Okurigana(text) => {
                let mut r = String::from_str("<sup class=\"okurigana\">");
                let e = html_escape(text.as_str());
                r.append(e.as_str());
                r.append("</sup>");
                r
            },
            Node::BlockStart { block_type, params } => {
                let mut r = String::new();
                let closed = self.manager.close_related_blocks(block_type);
                let mut i: usize = 0;
                while i < closed.len()
                    invariant
                        i <= closed@.len(),
                    decreases closed@.len() - i,
                {
                    let tag = self.manager.render_block_end_tag(&closed[i].0, &closed[i].1);
                    r.append(tag.as_str());
                    i += 1;
                }
                self.manager.push(*block_type, crate::node::clone_params(params));
                if !matches!(block_type, BlockType::Burasage) {
                    let tag = self.manager.render_block_start_tag(block_type, params);
                    r.append(tag.as_str());
                }
                r
            },
            Node::BlockEnd { block_type, params } => {
                match self.manager.find_and_close(block_type) {
                    Some(ctx) => {
                        if matches!(ctx.block_type, BlockType::Burasage) {
                            String::new()
                        } else if matches!(ctx.block_type, BlockType::Warigaki) || matches!(
                            ctx.block_type,
                            BlockType::Style,
                        ) {
                            self.manager.render_block_end_tag(&ctx.block_type, params)
                        } else {
                            self.manager.render_block_end_tag(&ctx.block_type, &ctx.params)
                        }
                    },
                    None => String::new(),
                }
            },
            Node::Note(text) => {
                self.has_notes = true;
                let mut r = String::from_str("<span class=\"notes\">［＃");
                let e = html_escape(text.as_str());
                r.append(e.as_str());
                r.append("］</span>");
                r
            },
            Node::AnnotationEnd { prefix, content, suffix } => {
                self.has_notes = true;
                let inner = self.render_nodes(content);
                let mut r = String::from_str("<span class=\"notes\">［＃");
                let ep = html_escape(prefix.as_str());
                r.append(ep.as_str());
                r.append(inner.as_str());
                let es = html_escape(suffix.as_str());
                r.append(es.as_str());
                r.append("］</span>");
                r
            },
            Node::UnresolvedReference { target, spec_text, connector } => {
                let mut r = String::from_str("<span class=\"notes\">［＃「");
                let et = html_escape(target.as_str());
                r.append(et.as_str());
                r.append("」");
                let ec = html_escape(connector.as_str());
                r.append(ec.as_str());
                let es = html_escape(spec_text.as_str());
                r.append(es.as_str());
                r.append("］</span>");
                r
            },
            Node::DakutenKatakana { .. } => node.to_text(),
        }
    }

    /// Render one line of markup: tokenized, parsed, resolved and walked;
    /// a line-scoped indent closes its own block at the end of the line.
    pub fn render_line(&mut self, line: &str) -> (r: String) {
        let tokens = tokenize(line);
        let mut nodes = parse(&tokens);
        resolve_inline_ruby(&mut nodes);
        let stack_len_before = self.manager.stack_len();
        let mut output = self.render_nodes(&nodes);
        let lv = str_to_chars(line);
        let is_line_scope = starts_with_pat(&lv, &str_to_chars("［＃")) && !contains_pat(
            &lv,
            &str_to_chars("ここから"),
        ) && (contains_pat(&lv, &str_to_chars("字下げ")) || contains_pat(
            &lv,
            &str_to_chars("地付き"),
        ) || contains_pat(&lv, &str_to_chars("地から")));
        if is_line_scope {
            let closed = self.manager.pop_to_length(stack_len_before);
            let mut i: usize = 0;
            while i < closed.len()
                invariant
                    i <= closed@.len(),
                decreases closed@.len() - i,
            {
                let tag = self.manager.render_block_end_tag(&closed[i].0, &closed[i].1);
                output.append(tag.as_str());
                i += 1;
            }
        }
        output
    }

    /// Render a whole document: head and metadata, the body line by line
    /// with hanging-indent wrapping and break tags, any dangling regions
    /// closed at the end, then colophon, notes and card sections.
    pub fn render(&mut self, input: &str) -> (r: String) {
        let mut output = String::new();
        let lines_owned = crate::strutil::split_lines(input);
        let mut line_refs: Vec<&str> = Vec::new();
        let mut i: usize = 0;
        while i < lines_owned.len()
            invariant
                i <= lines_owned@.len(),
            decreases lines_owned@.len() - i,
        {
            line_refs.push(lines_owned[i].as_str());
            i += 1;
        }
        let header_info = extract_header_info(&line_refs);
        self.render_html_head(&mut output, &header_info);
        self.render_metadata_section(&mut output, &header_info);
        output.append(
            "<div id=\"contents\" style=\"display:none\"></div><div class=\"main_text\">",
        );
        let body = extract_body_lines(&line_refs);
        let mut j: usize = 0;
        while j < body.len()
            invariant
                j <= body@.len(),
            decreases body@.len() - j,
        {
            let line_html = self.render_line(body[j]);
            let mut wrapped = false;
            match self.find_burasage_context() {
                Some((wrap_width, text_indent)) => {
                    let hv = str_to_chars(line_html.as_str());
                    let is_block_line = hv.len() == 0 || starts_with_pat(
                        &hv,
                        &str_to_chars("<div class=\""),
                    ) || starts_with_pat(&hv, &str_to_chars("<h3")) || starts_with_pat(
                        &hv,
                        &str_to_chars("<h4"),
                    ) || starts_with_pat(&hv, &str_to_chars("<h5")) || crate::strutil::ends_with_pat(
                        &hv,
                        &str_to_chars("</div>"),
                    ) || crate::strutil::ends_with_pat(&hv, &str_to_chars("</h3>"))
                        || crate::strutil::ends_with_pat(&hv, &str_to_chars("</h4>"))
                        || crate::strutil::ends_with_pat(&hv, &str_to_chars("</h5>"));
                    if !is_block_line {
                        output.append("<div class=\"burasage\" style=\"margin-left: ");
                        let ws = u32_to_string(wrap_width);
                        output.append(ws.as_str());
                        output.append("em; text-indent: ");
                        let ts = i64_to_string(text_indent);
                        output.append(ts.as_str());
                        output.append("em;\">");
                        output.append(line_html.as_str());
                        output.append("</div>\r\n");
                        wrapped = true;
                    }
                },
                None => {},
            }
            if !wrapped {
                output.append(line_html.as_str());
                if !is_block_only_line(line_html.as_str()) {
                    output.append("<br />");
                }
                output.append("\r\n");
            }
            j += 1;
        }
        let dangling = self.manager.pop_to_length(0);
        let mut k: usize = 0;
        while k < dangling.len()
            invariant
                k <= dangling@.len(),
            decreases dangling@.len() - k,
        {
            let tag = self.manager.render_block_end_tag(&dangling[k].0, &dangling[k].1);
            output.append(tag.as_str());
            k += 1;
        }
        output.append("</div>\r\n");
        let biblio = extract_bibliographical_lines(&line_refs);
        if biblio.len() > 0 {
            self.render_bibliographical_section(&mut output, &biblio);
        }
        self.render_notation_notes(&mut output);
        self.render_card_section(&mut output);
        self.render_html_foot(&mut output);
        output
    }

    /// The document head: declarations, stylesheets, title and metadata.
    pub fn render_html_head(&self, output: &mut String, header_info: &HeaderInfo) {
        output.append("<?xml version=\"1.0\" encoding=\"Shift_JIS\"?>\r\n");
        output.append("<!DOCTYPE html PUBLIC \"-//W3C//DTD XHTML 1.1//EN\"\r\n");
        output.append("    \"http://www.w3.org/TR/xhtml11/DTD/xhtml11.dtd\">\r\n");
        output.append("<html xmlns=\"http://www.w3.org/1999/xhtml\" xml:lang=\"ja\" >\r\n");
        output.append("<head>\r\n");
        output.append(
            "\t<meta http-equiv=\"Content-Type\" content=\"text/html;charset=Shift_JIS\" />\r\n",
        );
        output.append("\t<meta http-equiv=\"content-style-type\" content=\"text/css\" />\r\n");
        let mut i: usize = 0;
        while i < self.options.css_files.len()
            invariant
                i <= self.options.css_files@.len(),
            decreases self.options.css_files@.len() - i,
        {
            output.append("\t<link rel=\"stylesheet\" type=\"text/css\" href=\"");
            output.append(self.options.css_files[i].as_str());
            output.append("\" />\r\n");
            i += 1;
        }
        let title = match &self.options.title {
            Some(t) => html_escape(t.as_str()),
            None => header_info.html_title(),
        };
        output.append("\t<title>");
        output.append(title.as_str());
        output.append("</title>\r\n");
        output.append(
            "\t<script type=\"text/javascript\" src=\"../../jquery-1.4.2.min.js\"></script>\r\n",
        );
        output.append("  <link rel=\"Schema.DC\" href=\"http://purl.org/dc/elements/1.1/\" />\r\n");
        let dc_title = match &header_info.title {
            Some(t) => html_escape(t.as_str()),
            None => String::new(),
        };
        let dc_creator = match &header_info.author {
            Some(a) => html_escape(a.as_str()),
            None => String::new(),
        };
        output.append("\t<meta name=\"DC.Title\" content=\"");
        output.append(dc_title.as_str());
        output.append("\" />\r\n");
        output.append("\t<meta name=\"DC.Creator\" content=\"");
        output.append(dc_creator.as_str());
        output.append("\" />\r\n");
        output.append("\t<meta name=\"DC.Publisher\" content=\"青空文庫\" />\r\n");
        output.append("</head>\r\n");
        output.append("<body>\r\n");
    }

    /// The metadata section: title and people, one heading each.
    pub fn render_metadata_section(&self, output: &mut String, header_info: &HeaderInfo) {
        output.append("<div class=\"metadata\">\r\n");
        match &header_info.title {
            Some(t) => {
                output.append("<h1 class=\"title\">");
                let e = html_escape(t.as_str());
                output.append(e.as_str());
                output.append("</h1>\r\n");
            },
            None => {},
        }
        match &header_info.original_title {
            Some(t) => {
                output.append("<h2 class=\"original_title\">");
                let e = html_escape(t.as_str());
                output.append(e.as_str());
                output.append("</h2>\r\n");
            },
            None => {},
        }
        match &header_info.subtitle {
            Some(t) => {
                output.append("<h2 class=\"subtitle\">");
                let e = html_escape(t.as_str());
                output.append(e.as_str());
                output.append("</h2>\r\n");
            },
            None => {},
        }
        match &header_info.original_subtitle {
            Some(t) => {
                output.append("<h2 class=\"original_subtitle\">");
                let e = html_escape(t.as_str());
                output.append(e.as_str());
                output.append("</h2>\r\n");
            },
            None => {},
        }
        match &header_info.author {
            Some(t) => {
                output.append("<h2 class=\"author\">");
                let e = html_escape(t.as_str());
                output.append(e.as_str());
                output.append("</h2>\r\n");
            },
            None => {},
        }
        match &header_info.editor {
            Some(t) => {
                output.append("<h2 class=\"editor\">");
                let e = html_escape(t.as_str());
                output.append(e.as_str());
                output.append("</h2>\r\n");
            },
            None => {},
        }
        match &header_info.translator {
            Some(t) => {
                output.append("<h2 class=\"translator\">");
                let e = html_escape(t.as_str());
                output.append(e.as_str());
                output.append("</h2>\r\n");
            },
            None => {},
        }
        match &header_info.henyaku {
            Some(t) => {
                output.append("<h2 class=\"editor-translator\">");
                let e = html_escape(t.as_str());
                output.append(e.as_str());
                output.append("</h2>\r\n");
            },
            None => {},
        }
        output.append("<br />\r\n<br />\r\n</div>\r\n");
    }

    /// The colophon section: each line rendered, linked and broken.
    pub fn render_bibliographical_section(&mut self, output: &mut String, lines: &Vec<&str>) {
        output.append("<div class=\"bibliographical_information\">\r\n");
        output.append("<hr />\r\n");
        output.append("<br />\r\n");
        let mut i: usize = 0;
        while i < lines.len()
            invariant
                i <= lines@.len(),
            decreases lines@.len() - i,
        {
            let line_html = self.render_line(lines[i]);
            let linked = crate::html::presentation::auto_link(line_html.as_str());
            output.append(linked.as_str());
            output.append("<br />\r\n");
            i += 1;
        }
        output.append("</div>\r\n");
    }

    /// The notation-notes section: which conventions the document used.
    pub fn render_notation_notes(&self, output: &mut String) {
        output.append("<div class=\"notation_notes\">\r\n");
        output.append("<hr />\r\n");
        output.append("<br />\r\n");
        output.append("●表記について<br />\r\n");
        output.append("<ul>\r\n");
        output.append(
            "\t<li>このファイルは W3C 勧告 XHTML1.1 にそった形式で作成されています。</li>\r\n",
        );
        if self.has_notes {
            output.append("\t<li>［＃…］は、入力者による注を表す記号です。</li>\r\n");
        }
        if self.has_jisx0213 && !self.options.use_jisx0213 {
            output.append(
                "\t<li>「くの字点」をのぞくJIS X 0213にある文字は、画像化して埋め込みました。</li>\r\n",
            );
        }
        if self.has_accent && !self.options.use_jisx0213 {
            output.append(
                "\t<li>アクセント符号付きラテン文字は、画像化して埋め込みました。</li>\r\n",
            );
        }
        output.append("</ul>\r\n");
        output.append("</div>\r\n");
    }

    /// The library-card section.
    pub fn render_card_section(&self, output: &mut String) {
        output.append("<div id=\"card\">\r\n");
        output.append("<hr />\r\n");
        output.append("<br />\r\n");
        output.append("<a href=\"JavaScript:goLibCard();\" id=\"goAZLibCard\">●図書カード</a>");
        output.append("<script type=\"text/javascript\" src=\"../../contents.js\"></script>\r\n");
        output.append("<script type=\"text/javascript\" src=\"../../golibcard.js\"></script>\r\n");
        output.append("</div>");
    }

    /// The document foot.
    pub fn render_html_foot(&self, output: &mut String) {
        output.append("</body>\r\n");
        output.append("</html>\r\n");
    }
}

/// Replace the no-break space by its entity.
fn replace_nbsp(s: String) -> (r: String) {
    let v = str_to_chars(s.as_str());
    let mut r = String::new();
    let mut i: usize = 0;
    while i < v.len()
        invariant
            i <= v@.len(),
        decreases v@.len() - i,
    {
        if v[i] == '\u{00a0}' {
            r.append("&nbsp;");
        } else {
            crate::strutil::push_char(&mut r, v[i]);
        }
        i += 1;
    }
    r
}

} // verus!
