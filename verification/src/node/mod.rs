//! AST node types and their mathematical model.

pub mod block;
pub mod midashi;
pub mod style;

pub use block::{BlockParams, BlockParamsM, BlockType, FontSizeType};
pub use midashi::{MidashiLevel, MidashiStyle};
pub use style::StyleType;

use vstd::prelude::*;

use crate::char_type::{spec_classify, CharType};

verus! {

/// Direction a ruby gloss is shown on.
#[derive(Debug, Clone, Copy, PartialEq, Eq, Structural)]
pub enum RubyDirection {
    /// Right of vertical text, above horizontal text.
    Right,
    /// Left of vertical text, below horizontal text.
    Left,
}

impl Default for RubyDirection {
    /// The default direction is the right-hand (upper) side.
    fn default() -> (r: Self)
        ensures
            r == RubyDirection::Right,
    {
        RubyDirection::Right
    }
}

/// Mathematical model of a node: strings as character sequences, children
/// as sequences of models.
#[verifier::ext_equal]
pub enum NodeM {
    /// Plain text.
    Text(Seq<char>),
    /// Ruby: base text with a gloss.
    Ruby { children: Seq<NodeM>, ruby: Seq<NodeM>, direction: RubyDirection },
    /// Decorated span.
    Style { children: Seq<NodeM>, style_type: StyleType, class_name: Seq<char> },
    /// Heading.
    Midashi { children: Seq<NodeM>, level: MidashiLevel, style: MidashiStyle },
    /// Font-size change over a span.
    FontSize { children: Seq<NodeM>, size_type: FontSizeType, level: u32 },
    /// External glyph.
    Gaiji { description: Seq<char>, unicode: Option<Seq<char>>, jis_code: Option<Seq<char>> },
    /// Accented Latin character.
    Accent { code: Seq<char>, name: Seq<char>, unicode: Option<Seq<char>> },
    /// Image.
    Img {
        filename: Seq<char>,
        alt: Seq<char>,
        css_class: Seq<char>,
        width: Option<u32>,
        height: Option<u32>,
    },
    /// Vertical-in-horizontal span.
    Tcy { children: Seq<NodeM> },
    /// Framed span.
    Keigakomi { children: Seq<NodeM> },
    /// Horizontal-run span.
    Yokogumi { children: Seq<NodeM> },
    /// Caption span.
    Caption { children: Seq<NodeM> },
    /// Inline note on two half-height lines.
    Warigaki { upper: Seq<NodeM>, lower: Seq<NodeM> },
    /// Reading-order return mark.
    Kaeriten(Seq<char>),
    /// Reading-aid suffix kana.
    Okurigana(Seq<char>),
    /// Start of a block-scoped region.
    BlockStart { block_type: BlockType, params: BlockParamsM },
    /// End of a block-scoped region.
    BlockEnd { block_type: BlockType, params: BlockParamsM },
    /// Opaque editor note.
    Note(Seq<char>),
    /// Closer of a left-hand annotation range, kept verbatim.
    AnnotationEnd { prefix: Seq<char>, content: Seq<NodeM>, suffix: Seq<char> },
    /// A directive that refers back to earlier text, not yet resolved.
    UnresolvedReference { target: Seq<char>, spec_text: Seq<char>, connector: Seq<char> },
    /// Composed voiced katakana named by a code suffix.
    DakutenKatakana { num: Seq<char> },
}

/// One node of the content tree.
#[derive(Debug, PartialEq)]
pub enum Node {
    /// Plain text.
    Text(String),
    /// Ruby: base text with a gloss.
    Ruby {
        /// Nodes of the base text.
        children: Vec<Node>,
        /// Nodes of the gloss text.
        ruby: Vec<Node>,
        /// Which side the gloss is shown on.
        direction: RubyDirection,
    },
    /// Decorated span.
    Style {
        /// Decorated nodes.
        children: Vec<Node>,
        /// The decoration.
        style_type: StyleType,
        /// Extra CSS class, where a renderer sets one.
        class_name: String,
    },
    /// Heading.
    Midashi {
        /// Heading text nodes.
        children: Vec<Node>,
        /// Heading level.
        level: MidashiLevel,
        /// Heading style.
        style: MidashiStyle,
    },
    /// Font-size change over a span.
    FontSize {
        /// The spanned nodes.
        children: Vec<Node>,
        /// Direction of the change.
        size_type: FontSizeType,
        /// Number of steps.
        level: u32,
    },
    /// External glyph.
    Gaiji {
        /// The glyph description from the directive.
        description: String,
        /// Unicode text, where conversion succeeded.
        unicode: Option<String>,
        /// Normalized JIS code, where the description held one.
        jis_code: Option<String>,
    },
    /// Accented Latin character.
    Accent {
        /// JIS code of the composed character.
        code: String,
        /// Descriptive name.
        name: String,
        /// Unicode text of the composed character.
        unicode: Option<String>,
    },
    /// Image.
    Img {
        /// File name.
        filename: String,
        /// Alternative text.
        alt: String,
        /// CSS class.
        css_class: String,
        /// Width in pixels.
        width: Option<u32>,
        /// Height in pixels.
        height: Option<u32>,
    },
    /// Vertical-in-horizontal span.
    Tcy {
        /// The spanned nodes.
        children: Vec<Node>,
    },
    /// Framed span.
    Keigakomi {
        /// The spanned nodes.
        children: Vec<Node>,
    },
    /// Horizontal-run span.
    Yokogumi {
        /// The spanned nodes.
        children: Vec<Node>,
    },
    /// Caption span.
    Caption {
        /// The spanned nodes.
        children: Vec<Node>,
    },
    /// Inline note on two half-height lines.
    Warigaki {
        /// Upper half.
        upper: Vec<Node>,
        /// Lower half.
        lower: Vec<Node>,
    },
    /// Reading-order return mark.
    Kaeriten(String),
    /// Reading-aid suffix kana.
    Okurigana(String),
    /// Start of a block-scoped region.
    BlockStart {
        /// Kind of the region.
        block_type: BlockType,
        /// Its parameters.
        params: BlockParams,
    },
    /// End of a block-scoped region.
    BlockEnd {
        /// Kind of the region.
        block_type: BlockType,
        /// Parameters carried by the closer.
        params: BlockParams,
    },
    /// Opaque editor note.
    Note(String),
    /// Closer of a left-hand annotation range, kept verbatim.
    AnnotationEnd {
        /// Literal text before the annotation.
        prefix: String,
        /// Nodes of the annotation text.
        content: Vec<Node>,
        /// Literal text after the annotation.
        suffix: String,
    },
    /// A directive that refers back to earlier text, not yet resolved.
    UnresolvedReference {
        /// The text to find.
        target: String,
        /// What to apply to it.
        spec_text: String,
        /// The particle that joined target and specification.
        connector: String,
    },
    /// Composed voiced katakana named by a code suffix.
    DakutenKatakana {
        /// The code suffix.
        num: String,
    },
}

/// The model of an optional string.
pub open spec fn opt_model(o: Option<String>) -> Option<Seq<char>> {
    match o {
        Some(s) => Some(s@),
        None => None,
    }
}

impl Node {
    /// The model of this node.
    pub open spec fn model(self) -> NodeM
        decreases self,
    {
        match self {
            Node::Text(s) => NodeM::Text(s@),
            Node::Ruby { children, ruby, direction } => NodeM::Ruby {
                children: nodes_model(children@),
                ruby: nodes_model(ruby@),
                direction,
            },
            Node::Style { children, style_type, class_name } => NodeM::Style {
                children: nodes_model(children@),
                style_type,
                class_name: class_name@,
            },
            Node::Midashi { children, level, style } => NodeM::Midashi {
                children: nodes_model(children@),
                level,
                style,
            },
            Node::FontSize { children, size_type, level } => NodeM::FontSize {
                children: nodes_model(children@),
                size_type,
                level,
            },
            Node::Gaiji { description, unicode, jis_code } => NodeM::Gaiji {
                description: description@,
                unicode: opt_model(unicode),
                jis_code: opt_model(jis_code),
            },
            Node::Accent { code, name, unicode } => NodeM::Accent {
                code: code@,
                name: name@,
                unicode: opt_model(unicode),
            },
            Node::Img { filename, alt, css_class, width, height } => NodeM::Img {
                filename: filename@,
                alt: alt@,
                css_class: css_class@,
                width,
                height,
            },
            Node::Tcy { children } => NodeM::Tcy { children: nodes_model(children@) },
            Node::Keigakomi { children } => NodeM::Keigakomi { children: nodes_model(children@) },
            Node::Yokogumi { children } => NodeM::Yokogumi { children: nodes_model(children@) },
            Node::Caption { children } => NodeM::Caption { children: nodes_model(children@) },
            Node::Warigaki { upper, lower } => NodeM::Warigaki {
                upper: nodes_model(upper@),
                lower: nodes_model(lower@),
            },
            Node::Kaeriten(s) => NodeM::Kaeriten(s@),
            Node::Okurigana(s) => NodeM::Okurigana(s@),
            Node::BlockStart { block_type, params } => NodeM::BlockStart {
                block_type,
                params: params.model(),
            },
            Node::BlockEnd { block_type, params } => NodeM::BlockEnd {
                block_type,
                params: params.model(),
            },
            Node::Note(s) => NodeM::Note(s@),
            Node::AnnotationEnd { prefix, content, suffix } => NodeM::AnnotationEnd {
                prefix: prefix@,
                content: nodes_model(content@),
                suffix: suffix@,
            },
            Node::UnresolvedReference { target, spec_text, connector } =>
                NodeM::UnresolvedReference {
                target: target@,
                spec_text: spec_text@,
                connector: connector@,
            },
            Node::DakutenKatakana { num } => NodeM::DakutenKatakana { num: num@ },
        }
    }

    /// A plain-text node holding `s`.
    pub fn text(s: &str) -> (n: Node)
        ensures
            n.model() == NodeM::Text(s@),
    {
        Node::Text(s.to_owned())
    }
}

/// The models of a sequence of nodes, in order.
pub open spec fn nodes_model(ns: Seq<Node>) -> Seq<NodeM>
    decreases ns,
{
    if ns.len() == 0 {
        Seq::empty()
    } else {
        nodes_model(ns.drop_last()).push(ns.last().model())
    }
}

/// `nodes_model` maps the sequence pointwise.
pub broadcast proof fn lemma_nodes_model(ns: Seq<Node>)
    ensures
        #![trigger nodes_model(ns)]
        nodes_model(ns).len() == ns.len(),
        forall|i: int| 0 <= i < ns.len() ==> nodes_model(ns)[i] == ns[i].model(),
    decreases ns.len(),
{
    if ns.len() > 0 {
        lemma_nodes_model(ns.drop_last());
    }
}

/// The plain text of a node: markup dropped, glosses dropped, glyphs by
/// their converted or described text.
pub open spec fn spec_to_text(n: NodeM) -> Seq<char>
    decreases n,
{
    match n {
        NodeM::Text(s) => s,
        NodeM::Ruby { children, .. } => spec_nodes_text(children),
        NodeM::Style { children, .. } => spec_nodes_text(children),
        NodeM::Midashi { children, .. } => spec_nodes_text(children),
        NodeM::FontSize { children, .. } => spec_nodes_text(children),
        NodeM::Gaiji { description, unicode, .. } => match unicode {
            Some(u) => u,
            None => description,
        },
        NodeM::Accent { name, unicode, .. } => match unicode {
            Some(u) => u,
            None => name,
        },
        NodeM::Img { alt, .. } => alt,
        NodeM::Tcy { children } => spec_nodes_text(children),
        NodeM::Keigakomi { children } => spec_nodes_text(children),
        NodeM::Yokogumi { children } => spec_nodes_text(children),
        NodeM::Caption { children } => spec_nodes_text(children),
        NodeM::Warigaki { upper, lower } => spec_nodes_text(upper) + "（"@ + spec_nodes_text(
            lower,
        ) + "）"@,
        NodeM::Kaeriten(s) => s,
        NodeM::Okurigana(s) => s,
        NodeM::BlockStart { .. } => Seq::empty(),
        NodeM::BlockEnd { .. } => Seq::empty(),
        NodeM::Note(_) => Seq::empty(),
        NodeM::AnnotationEnd { .. } => Seq::empty(),
        NodeM::UnresolvedReference { target, spec_text, connector } => "［＃「"@ + target + "」"@
            + connector + spec_text + "］"@,
        NodeM::DakutenKatakana { num } => {
            if num == seq!['2'] {
                "ワ゛"@
            } else if num == seq!['3'] {
                "ヰ゛"@
            } else if num == seq!['4'] {
                "ヱ゛"@
            } else if num == seq!['5'] {
                "ヲ゛"@
            } else {
                Seq::empty()
            }
        },
    }
}

/// The concatenated plain text of a sequence of nodes.
pub open spec fn spec_nodes_text(ns: Seq<NodeM>) -> Seq<char>
    decreases ns,
{
    if ns.len() == 0 {
        Seq::empty()
    } else {
        spec_nodes_text(ns.drop_last()) + spec_to_text(ns.last())
    }
}

impl Node {
    /// The plain text of this node.
    pub fn to_text(&self) -> (r: String)
        ensures
            r@ == spec_to_text(self.model()),
        decreases self,
    {
        match self {
            Node::Text(s) => s.clone(),
            Node::Ruby { children, .. } => nodes_text(children),
            Node::Style { children, .. } => nodes_text(children),
            Node::Midashi { children, .. } => nodes_text(children),
            Node::FontSize { children, .. } => nodes_text(children),
            Node::Gaiji { description, unicode, .. } => match unicode {
                Some(u) => u.clone(),
                None => description.clone(),
            },
            Node::Accent { name, unicode, .. } => match unicode {
                Some(u) => u.clone(),
                None => name.clone(),
            },
            Node::Img { alt, .. } => alt.clone(),
            Node::Tcy { children } => nodes_text(children),
            Node::Keigakomi { children } => nodes_text(children),
            Node::Yokogumi { children } => nodes_text(children),
            Node::Caption { children } => nodes_text(children),
            Node::Warigaki { upper, lower } => {
                let mut r = nodes_text(upper);
                r.append("（");
                let l = nodes_text(lower);
                r.append(l.as_str());
                r.append("）");
                proof {
                    assert(r@ =~= spec_to_text(self.model()));
                }
                r
            },
            Node::Kaeriten(s) => s.clone(),
            Node::Okurigana(s) => s.clone(),
            Node::BlockStart { .. } => String::new(),
            Node::BlockEnd { .. } => String::new(),
            Node::Note(_) => String::new(),
            Node::AnnotationEnd { .. } => String::new(),
            Node::UnresolvedReference { target, spec_text, connector } => {
                let mut r = String::from_str("［＃「");
                r.append(target.as_str());
                r.append("」");
                r.append(connector.as_str());
                r.append(spec_text.as_str());
                r.append("］");
                proof {
                    assert(r@ =~= spec_to_text(self.model()));
                }
                r
            },
            Node::DakutenKatakana { num } => {
                let n = num.as_str();
                let one = n.unicode_len() == 1;
                if one && n.get_char(0) == '2' {
                    proof {
                        assert(num@ =~= seq!['2']);
                    }
                    String::from_str("ワ゛")
                } else if one && n.get_char(0) == '3' {
                    proof {
                        assert(num@ =~= seq!['3']);
                    }
                    String::from_str("ヰ゛")
                } else if one && n.get_char(0) == '4' {
                    proof {
                        assert(num@ =~= seq!['4']);
                    }
                    String::from_str("ヱ゛")
                } else if one && n.get_char(0) == '5' {
                    proof {
                        assert(num@ =~= seq!['5']);
                    }
                    String::from_str("ヲ゛")
                } else {
                    proof {
                        assert(num@ != seq!['2'] && num@ != seq!['3'] && num@ != seq!['4']
                            && num@ != seq!['5']) by {
                            if num@.len() == 1 {
                            } else {
                                assert(num@.len() != 1);
                            }
                        }
                    }
                    String::new()
                }
            },
        }
    }

    /// The class of the last character this node contributes, if any.
    pub fn last_char_type(&self) -> (r: Option<CharType>)
        ensures
            r == spec_last_char_type(self.model()),
    {
        match self {
            Node::Text(s) => {
                let n = s.as_str().unicode_len();
                if n == 0 {
                    None
                } else {
                    Some(CharType::classify(s.as_str().get_char(n - 1)))
                }
            },
            Node::Gaiji { .. } => Some(CharType::Kanji),
            Node::Accent { .. } => Some(CharType::Hankaku),
            Node::DakutenKatakana { .. } => Some(CharType::Katakana),
            _ => None,
        }
    }
}

/// The concatenated plain text of a list of nodes.
pub fn nodes_text(ns: &Vec<Node>) -> (r: String)
    ensures
        r@ == spec_nodes_text(nodes_model(ns@)),
    decreases ns,
{
    let mut r = String::new();
    let mut i: usize = 0;
    proof {
        assert(ns@.subrange(0, 0) =~= Seq::<Node>::empty());
    }
    while i < ns.len()
        invariant
            i <= ns@.len(),
            r@ == spec_nodes_text(nodes_model(ns@.subrange(0, i as int))),
        decreases ns@.len() - i,
    {
        let t = ns[i].to_text();
        r.append(t.as_str());
        proof {
            let a = ns@.subrange(0, i as int);
            let b = ns@.subrange(0, i as int + 1);
            lemma_nodes_model(a);
            lemma_nodes_model(b);
            assert(b.drop_last() =~= a);
            assert(nodes_model(b).drop_last() =~= nodes_model(a));
            assert(nodes_model(b).last() == ns@[i as int].model());
            assert(spec_nodes_text(nodes_model(b)) == spec_nodes_text(nodes_model(a))
                + spec_to_text(ns@[i as int].model()));
        }
        i += 1;
    }
    proof {
        assert(ns@.subrange(0, ns@.len() as int) =~= ns@);
    }
    r
}

impl Clone for Node {
    /// A clone has the same model.
    fn clone(&self) -> (r: Node)
        ensures
            r.model() == self.model(),
        decreases self,
    {
        match self {
            Node::Text(s) => Node::Text(s.clone()),
            Node::Ruby { children, ruby, direction } => Node::Ruby {
                children: clone_nodes(children),
                ruby: clone_nodes(ruby),
                direction: *direction,
            },
            Node::Style { children, style_type, class_name } => Node::Style {
                children: clone_nodes(children),
                style_type: *style_type,
                class_name: class_name.clone(),
            },
            Node::Midashi { children, level, style } => Node::Midashi {
                children: clone_nodes(children),
                level: *level,
                style: *style,
            },
            Node::FontSize { children, size_type, level } => Node::FontSize {
                children: clone_nodes(children),
                size_type: *size_type,
                level: *level,
            },
            Node::Gaiji { description, unicode, jis_code } => Node::Gaiji {
                description: description.clone(),
                unicode: clone_opt(unicode),
                jis_code: clone_opt(jis_code),
            },
            Node::Accent { code, name, unicode } => Node::Accent {
                code: code.clone(),
                name: name.clone(),
                unicode: clone_opt(unicode),
            },
            Node::Img { filename, alt, css_class, width, height } => Node::Img {
                filename: filename.clone(),
                alt: alt.clone(),
                css_class: css_class.clone(),
                width: *width,
                height: *height,
            },
            Node::Tcy { children } => Node::Tcy { children: clone_nodes(children) },
            Node::Keigakomi { children } => Node::Keigakomi { children: clone_nodes(children) },
            Node::Yokogumi { children } => Node::Yokogumi { children: clone_nodes(children) },
            Node::Caption { children } => Node::Caption { children: clone_nodes(children) },
            Node::Warigaki { upper, lower } => Node::Warigaki {
                upper: clone_nodes(upper),
                lower: clone_nodes(lower),
            },
            Node::Kaeriten(s) => Node::Kaeriten(s.clone()),
            Node::Okurigana(s) => Node::Okurigana(s.clone()),
            Node::BlockStart { block_type, params } => Node::BlockStart {
                block_type: *block_type,
                params: clone_params(params),
            },
            Node::BlockEnd { block_type, params } => Node::BlockEnd {
                block_type: *block_type,
                params: clone_params(params),
            },
            Node::Note(s) => Node::Note(s.clone()),
            Node::AnnotationEnd { prefix, content, suffix } => Node::AnnotationEnd {
                prefix: prefix.clone(),
                content: clone_nodes(content),
                suffix: suffix.clone(),
            },
            Node::UnresolvedReference { target, spec_text, connector } =>
                Node::UnresolvedReference {
                target: target.clone(),
                spec_text: spec_text.clone(),
                connector: connector.clone(),
            },
            Node::DakutenKatakana { num } => Node::DakutenKatakana { num: num.clone() },
        }
    }
}

/// A clone of an optional string: same model.
pub fn clone_opt(o: &Option<String>) -> (r: Option<String>)
    ensures
        opt_model(r) == opt_model(*o),
{
    match o {
        Some(s) => Some(s.clone()),
        None => None,
    }
}

/// A clone of block parameters: same model.
pub fn clone_params(p: &BlockParams) -> (r: BlockParams)
    ensures
        r.model() == p.model(),
{
    BlockParams {
        width: p.width,
        wrap_width: p.wrap_width,
        level: p.level,
        font_size: p.font_size,
        is_block: p.is_block,
        midashi_style: p.midashi_style,
        style_type: p.style_type,
        annotation: clone_opt(&p.annotation),
        has_open_paren: p.has_open_paren,
        has_close_paren: p.has_close_paren,
    }
}

/// A list of clones: same models, in order.
pub fn clone_nodes(v: &Vec<Node>) -> (r: Vec<Node>)
    ensures
        nodes_model(r@) == nodes_model(v@),
    decreases v,
{
    let mut r: Vec<Node> = Vec::new();
    let mut i: usize = 0;
    while i < v.len()
        invariant
            i <= v@.len(),
            r@.len() == i,
            forall|j: int| 0 <= j < i ==> r@[j].model() == v@[j].model(),
        decreases v@.len() - i,
    {
        r.push(v[i].clone());
        i += 1;
    }
    proof {
        lemma_nodes_model(r@);
        lemma_nodes_model(v@);
        assert(nodes_model(r@) =~= nodes_model(v@));
    }
    r
}

/// The class of the last character of the plain text a node contributes to
/// ruby-base extraction, where the node can contribute at all.
pub open spec fn spec_last_char_type(n: NodeM) -> Option<CharType> {
    match n {
        NodeM::Text(s) => if s.len() == 0 {
            None
        } else {
            Some(spec_classify(s.last()))
        },
        NodeM::Gaiji { .. } => Some(CharType::Kanji),
        NodeM::Accent { .. } => Some(CharType::Hankaku),
        NodeM::DakutenKatakana { .. } => Some(CharType::Katakana),
        _ => None,
    }
}

} // verus!
