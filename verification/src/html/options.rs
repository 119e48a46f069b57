//! Rendering options.

use vstd::prelude::*;

verus! {

/// Options of the HTML renderer.
#[derive(Debug, Clone, PartialEq)]
pub struct RenderOptions {
    /// Directory of glyph images.
    pub gaiji_dir: String,
    /// Stylesheet paths to link.
    pub css_files: Vec<String>,
    /// Emit JIS X 0213 characters as numeric references.
    pub use_jisx0213: bool,
    /// Emit any converted character as a numeric reference.
    pub use_unicode: bool,
    /// Emit a full document rather than a fragment.
    pub full_document: bool,
    /// Fixed document title.
    pub title: Option<String>,
}

impl Default for RenderOptions {
    /// The defaults: the conventional image and stylesheet paths, images
    /// for special characters, a fragment, no fixed title.
    fn default() -> (r: Self)
        ensures
            r.gaiji_dir@ == "../../../gaiji/"@,
            r.css_files@.len() == 1 && r.css_files@[0]@ == "../../aozora.css"@,
            !r.use_jisx0213 && !r.use_unicode && !r.full_document,
            r.title is None,
    {
        let mut css_files: Vec<String> = Vec::new();
        css_files.push("../../aozora.css".to_owned());
        RenderOptions {
            gaiji_dir: "../../../gaiji/".to_owned(),
            css_files,
            use_jisx0213: false,
            use_unicode: false,
            full_document: false,
            title: None,
        }
    }
}

impl RenderOptions {
    /// The default options.
    pub fn new() -> (r: Self)
        ensures
            r.gaiji_dir@ == "../../../gaiji/"@,
            r.css_files@.len() == 1 && r.css_files@[0]@ == "../../aozora.css"@,
            !r.use_jisx0213 && !r.use_unicode && !r.full_document,
            r.title is None,
    {
        Self::default()
    }

    /// The same options with another glyph-image directory.
    pub fn with_gaiji_dir(self, dir: &str) -> (r: Self)
        ensures
            (r == RenderOptions { gaiji_dir: r.gaiji_dir, ..self }),
            r.gaiji_dir@ == dir@,
    {
        RenderOptions { gaiji_dir: dir.to_owned(), ..self }
    }

    /// The same options with other stylesheets.
    pub fn with_css_files(self, files: Vec<String>) -> (r: Self)
        ensures
            (r == RenderOptions { css_files: files, ..self }),
    {
        RenderOptions { css_files: files, ..self }
    }

    /// The same options with JIS X 0213 numeric references switched.
    pub fn with_jisx0213(self, use_it: bool) -> (r: Self)
        ensures
            (r == RenderOptions { use_jisx0213: use_it, ..self }),
    {
        RenderOptions { use_jisx0213: use_it, ..self }
    }

    /// The same options with general numeric references switched.
    pub fn with_unicode(self, use_it: bool) -> (r: Self)
        ensures
            (r == RenderOptions { use_unicode: use_it, ..self }),
    {
        RenderOptions { use_unicode: use_it, ..self }
    }

    /// The same options with full-document output switched.
    pub fn with_full_document(self, full: bool) -> (r: Self)
        ensures
            (r == RenderOptions { full_document: full, ..self }),
    {
        RenderOptions { full_document: full, ..self }
    }

    /// The same options with a fixed title.
    pub fn with_title(self, title: &str) -> (r: Self)
        ensures
            (r == RenderOptions { title: r.title, ..self }),
            r.title is Some && r.title->0@ == title@,
    {
        RenderOptions { title: Some(title.to_owned()), ..self }
    }
}

} // verus!
