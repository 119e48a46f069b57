//! Document-section rendering: head, metadata, section frames and foot.

use vstd::prelude::*;

use crate::document::HeaderInfo;
use crate::html::options::RenderOptions;
use crate::html::presentation::html_escape;

verus! {

/// A glyph that could not be converted, listed in the notation notes.
#[derive(Debug, Clone, PartialEq)]
pub struct UnconvertedGaiji {
    /// The glyph description from the directive.
    pub description: String,
    /// Unicode text, where conversion found some.
    pub unicode: Option<String>,
}

/// Renders the fixed document sections around the body.
pub struct DocumentRenderer {
    /// Rendering options.
    pub options: RenderOptions,
}

impl DocumentRenderer {
    /// A section renderer over the given options.
    pub fn new(options: RenderOptions) -> (r: Self) {
        DocumentRenderer { options }
    }

    /// The document head: declarations, stylesheets, title and metadata.
    pub fn render_html_head(&self, output: &mut String, header_info: &HeaderInfo) {
        output.append("<?xml version=\"1.0\" encoding=\"Shift_JIS\"?>\r\n");
        output.append("<!DOCTYPE html PUBLIC \"-//W3C//DTD XHTML 1.1//EN\"\r\n");
        output.append("    \"http://www.w3.org/TR/xhtml11/DTD/xhtml11.dtd\">\r\n");
        output.append("<html xmlns=\"http://www.w3.org/1999/xhtml\" xml:lang=\"ja\" >\r\n");
        output.append("<head>\r\n");
        output.append(
            "\t<meta http-equiv=\"Content-Type\" content=\"text/html;charset=Shift_JIS\" />\r\n",
        );
        output.append("\t<meta http-equiv=\"content-style-type\" content=\"text/css\" />\r\n");
        let mut i: usize = 0;
        while i < self.options.css_files.len()
            invariant
                i <= self.options.css_files@.len(),
            decreases self.options.css_files@.len() - i,
        {
            output.append("\t<link rel=\"stylesheet\" type=\"text/css\" href=\"");
            output.append(self.options.css_files[i].as_str());
            output.append("\" />\r\n");
            i += 1;
        }
        let title = match &self.options.title {
            Some(t) => html_escape(t.as_str()),
            None => header_info.html_title(),
        };
        output.append("\t<title>");
        output.append(title.as_str());
        output.append("</title>\r\n");
        output.append(
            "\t<script type=\"text/javascript\" src=\"../../jquery-1.4.2.min.js\"></script>\r\n",
        );
        output.append("  <link rel=\"Schema.DC\" href=\"http://purl.org/dc/elements/1.1/\" />\r\n");
        let dc_title = match &header_info.title {
            Some(t) => html_escape(t.as_str()),
            None => String::new(),
        };
        let dc_creator = match &header_info.author {
            Some(a) => html_escape(a.as_str()),
            None => String::new(),
        };
        output.append("\t<meta name=\"DC.Title\" content=\"");
        output.append(dc_title.as_str());
        output.append("\" />\r\n");
        output.append("\t<meta name=\"DC.Creator\" content=\"");
        output.append(dc_creator.as_str());
        output.append("\" />\r\n");
        output.append("\t<meta name=\"DC.Publisher\" content=\"青空文庫\" />\r\n");
        output.append("</head>\r\n");
        output.append("<body>\r\n");
    }

    /// The metadata section: title and people, one heading each.
    pub fn render_metadata_section(&self, output: &mut String, header_info: &HeaderInfo) {
        output.append("<div class=\"metadata\">\r\n");
        match &header_info.title {
            Some(t) => {
                output.append("<h1 class=\"title\">");
                let e = html_escape(t.as_str());
                output.append(e.as_str());
                output.append("</h1>\r\n");
            },
            None => {},
        }
        match &header_info.original_title {
            Some(t) => {
                output.append("<h2 class=\"original_title\">");
                let e = html_escape(t.as_str());
                output.append(e.as_str());
                output.append("</h2>\r\n");
            },
            None => {},
        }
        match &header_info.subtitle {
            Some(t) => {
                output.append("<h2 class=\"subtitle\">");
                let e = html_escape(t.as_str());
                output.append(e.as_str());
                output.append("</h2>\r\n");
            },
            None => {},
        }
        match &header_info.original_subtitle {
            Some(t) => {
                output.append("<h2 class=\"original_subtitle\">");
                let e = html_escape(t.as_str());
                output.append(e.as_str());
                output.append("</h2>\r\n");
            },
            None => {},
        }
        match &header_info.author {
            Some(t) => {
                output.append("<h2 class=\"author\">");
                let e = html_escape(t.as_str());
                output.append(e.as_str());
                output.append("</h2>\r\n");
            },
            None => {},
        }
        match &header_info.editor {
            Some(t) => {
                output.append("<h2 class=\"editor\">");
                let e = html_escape(t.as_str());
                output.append(e.as_str());
                output.append("</h2>\r\n");
            },
            None => {},
        }
        match &header_info.translator {
            Some(t) => {
                output.append("<h2 class=\"translator\">");
                let e = html_escape(t.as_str());
                output.append(e.as_str());
                output.append("</h2>\r\n");
            },
            None => {},
        }
        match &header_info.henyaku {
            Some(t) => {
                output.append("<h2 class=\"editor-translator\">");
                let e = html_escape(t.as_str());
                output.append(e.as_str());
                output.append("</h2>\r\n");
            },
            None => {},
        }
        output.append("<br />\r\n<br />\r\n</div>\r\n");
    }

    /// The document foot.
    pub fn render_html_foot(&self, output: &mut String) {
        output.append("</body>\r\n");
        output.append("</html>\r\n");
    }

    /// Open the closing-text section.
    pub fn render_after_text_header(&self, output: &mut String) {
        output.append("<div class=\"after_text\">\r\n");
        output.append("<hr />\r\n");
        output.append("<br />\r\n");
    }

    /// Close the closing-text section.
    pub fn render_after_text_footer(&self, output: &mut String) {
        output.append("<br />\r\n");
        output.append("<br />\r\n");
        output.append("</div>\r\n");
    }

    /// Open the colophon section.
    pub fn render_bibliographical_header(&self, output: &mut String) {
        output.append("<div class=\"bibliographical_information\">\r\n");
        output.append("<hr />\r\n");
        output.append("<br />\r\n");
    }

    /// Close the colophon section.
    pub fn render_bibliographical_footer(&self, output: &mut String) {
        output.append("<br />\r\n");
        output.append("<br />\r\n");
        output.append("</div>\r\n");
    }

    /// Open the body section.
    pub fn render_main_text_start(&self, output: &mut String) {
        output.append(
            "<div id=\"contents\" style=\"display:none\"></div><div class=\"main_text\">",
        );
    }

    /// Close the body section.
    pub fn render_main_text_end(&self, output: &mut String) {
        output.append("</div>\r\n");
    }

    /// The notation-notes section: which conventions the document used,
    /// and the glyphs that stayed unconverted.
    pub fn render_notation_notes(
        &self,
        output: &mut String,
        has_notes: bool,
        has_jisx0213: bool,
        has_accent: bool,
        unconverted_gaiji: &Vec<UnconvertedGaiji>,
    ) {
        output.append("<div class=\"notation_notes\">\r\n");
        output.append("<hr />\r\n");
        output.append("<br />\r\n");
        output.append("●表記について<br />\r\n");
        output.append("<ul>\r\n");
        output.append(
            "\t<li>このファイルは W3C 勧告 XHTML1.1 にそった形式で作成されています。</li>\r\n",
        );
        if has_notes {
            output.append("\t<li>［＃…］は、入力者による注を表す記号です。</li>\r\n");
        }
        if has_jisx0213 && !self.options.use_jisx0213 {
            output.append(
                "\t<li>「くの字点」をのぞくJIS X 0213にある文字は、画像化して埋め込みました。</li>\r\n",
            );
        }
        if has_accent && !self.options.use_jisx0213 {
            output.append(
                "\t<li>アクセント符号付きラテン文字は、画像化して埋め込みました。</li>\r\n",
            );
        }
        if unconverted_gaiji.len() > 0 {
            output.append(
                "\t<li>この作品には、変換できなかった以下の文字が用いられています。本文内では「※［＃…］」の形で示しました。</li>\r\n",
            );
        }
        output.append("</ul>\r\n");
        if unconverted_gaiji.len() > 0 {
            output.append("<br />\r\n");
            output.append("\t\t<table class=\"gaiji_list\">\r\n");
            let mut i: usize = 0;
            while i < unconverted_gaiji.len()
                invariant
                    i <= unconverted_gaiji@.len(),
                decreases unconverted_gaiji@.len() - i,
            {
                output.append("\t\t\t<tr>\r\n");
                let name = html_escape(unconverted_gaiji[i].description.as_str());
                output.append("\t\t\t\t<td>\r\n\t\t\t\t");
                output.append(name.as_str());
                output.append("\r\n\t\t\t\t</td>\r\n");
                output.append("\t\t\t\t<td>&nbsp;&nbsp;</td>\r\n");
                output.append("\t\t\t</tr>\r\n");
                i += 1;
            }
            output.append("\t\t</table>\r\n");
        }
        output.append("</div>\r\n");
    }

    /// The library-card section.
    pub fn render_card_section(&self, output: &mut String) {
        output.append("<div id=\"card\">\r\n");
        output.append("<hr />\r\n");
        output.append("<br />\r\n");
        output.append("<a href=\"JavaScript:goLibCard();\" id=\"goAZLibCard\">●図書カード</a>");
        output.append("<script type=\"text/javascript\" src=\"../../contents.js\"></script>\r\n");
        output.append("<script type=\"text/javascript\" src=\"../../golibcard.js\"></script>\r\n");
        output.append("</div>");
    }
}

} // verus!
