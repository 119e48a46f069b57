//! HTML rendering of the resolved tree.

pub mod block_manager;
pub mod document_renderer;
pub mod options;
pub mod presentation;
pub mod renderer;
pub mod tag_generator;

use vstd::prelude::*;

pub use options::RenderOptions;
pub use renderer::HtmlRenderer;

verus! {

/// Render a whole document of markup to HTML.
pub fn convert(input: &str, options: &RenderOptions) -> (r: String) {
    let mut renderer = HtmlRenderer::new(options.clone());
    renderer.render(input)
}

/// Render one line of markup to an HTML fragment.
pub fn convert_line(line: &str, options: &RenderOptions) -> (r: String) {
    let mut renderer = HtmlRenderer::new(options.clone());
    renderer.render_line(line)
}

} // verus!
