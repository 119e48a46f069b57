//! Parsing: from tokens to AST nodes, with references resolved at the end.

pub mod block_parser;
pub mod command_parser;
pub mod content_parser;
pub mod reference_parser;
pub mod reference_resolver;
pub mod ruby_parser;
pub mod utils;

use vstd::prelude::*;

use crate::accent::{parse_accent, spec_parse_accent, AccentPart, AccentPartM};
use crate::node::block::spec_params_default;
use crate::node::{nodes_model, BlockParams, BlockType, Node, NodeM, RubyDirection};
use crate::parser::command_parser::{parse_command, spec_parse_command, CommandResult,
    CommandResultM};
use crate::parser::reference_resolver::{gaiji_node, resolve_references, spec_gaiji_node,
    spec_resolve};
use crate::token::{tokens_model, Token, TokenM};
use crate::strutil::{spec_ends_with, spec_starts_with};

verus! {

broadcast use crate::node::lemma_nodes_model, crate::token::lemma_tokens_model;

/// The nodes of a directive, by its interpreted command. References that
/// look backward stay unresolved here; heading, font-size, annotation-ruby
/// and side-note references carry their specification re-spelled in the
/// shared vocabulary.
pub open spec fn spec_command_node(c: CommandResultM) -> NodeM {
    match c {
        CommandResultM::Style { target, connector, style_type } => NodeM::UnresolvedReference {
            target,
            spec_text: crate::node::style::spec_style_command_name(style_type),
            connector,
        },
        CommandResultM::Midashi { target, level, style } => NodeM::UnresolvedReference {
            target,
            spec_text: spec_midashi_spec_name(level, style),
            connector: "は"@,
        },
        CommandResultM::FontSize { target, size_type, level } => NodeM::UnresolvedReference {
            target,
            spec_text: crate::strutil::spec_decimal(level as int) + (
            if size_type == crate::node::FontSizeType::Dai {
                "段階大きな文字"@
            } else {
                "段階小さな文字"@
            }),
            connector: "は"@,
        },
        CommandResultM::BlockStart { block_type, params } => NodeM::BlockStart {
            block_type,
            params,
        },
        CommandResultM::BlockEnd { block_type } => NodeM::BlockEnd {
            block_type,
            params: spec_params_default(),
        },
        CommandResultM::LineIndent { width } => NodeM::BlockStart {
            block_type: BlockType::Jisage,
            params: crate::node::BlockParamsM { width: Some(width), ..spec_params_default() },
        },
        CommandResultM::LineChitsuki { width } => NodeM::BlockStart {
            block_type: BlockType::Chitsuki,
            params: crate::node::BlockParamsM {
                width: if width > 0 {
                    Some(width)
                } else {
                    None
                },
                ..spec_params_default()
            },
        },
        CommandResultM::Note(text) => NodeM::Note(text),
        CommandResultM::Image { filename, alt, width, height } => NodeM::Img {
            filename,
            alt,
            css_class: Seq::empty(),
            width,
            height,
        },
        CommandResultM::Kaeriten(text) => NodeM::Kaeriten(text),
        CommandResultM::Okurigana(text) => NodeM::Okurigana(text),
        CommandResultM::TcyStart => NodeM::BlockStart {
            block_type: BlockType::Tcy,
            params: spec_params_default(),
        },
        CommandResultM::TcyEnd => NodeM::BlockEnd {
            block_type: BlockType::Tcy,
            params: spec_params_default(),
        },
        CommandResultM::WarigakiStart => NodeM::BlockStart {
            block_type: BlockType::Warigaki,
            params: spec_params_default(),
        },
        CommandResultM::WarigakiEnd => NodeM::BlockEnd {
            block_type: BlockType::Warigaki,
            params: spec_params_default(),
        },
        CommandResultM::CaptionStart => NodeM::BlockStart {
            block_type: BlockType::Caption,
            params: spec_params_default(),
        },
        CommandResultM::CaptionEnd => NodeM::BlockEnd {
            block_type: BlockType::Caption,
            params: spec_params_default(),
        },
        CommandResultM::LeftRuby { target, ruby } => NodeM::Note(
            "「"@ + target + "」の左に「"@ + ruby + "」のルビ"@,
        ),
        CommandResultM::AnnotationRuby { target, annotation } => NodeM::UnresolvedReference {
            target,
            spec_text: "annotation_ruby:"@ + annotation,
            connector: "に"@,
        },
        CommandResultM::SideNote { target, annotation } => NodeM::UnresolvedReference {
            target,
            spec_text: "side_note:"@ + annotation,
            connector: "に"@,
        },
        CommandResultM::InlineTcy { target } => NodeM::UnresolvedReference {
            target,
            spec_text: "縦中横"@,
            connector: "は"@,
        },
        CommandResultM::InlineKeigakomi { target } => NodeM::UnresolvedReference {
            target,
            spec_text: "罫囲み"@,
            connector: "は"@,
        },
        CommandResultM::InlineYokogumi { target } => NodeM::UnresolvedReference {
            target,
            spec_text: "横組み"@,
            connector: "は"@,
        },
        CommandResultM::InlineCaption { target } => NodeM::UnresolvedReference {
            target,
            spec_text: "キャプション"@,
            connector: "は"@,
        },
        CommandResultM::StyleStart { style_type } => NodeM::BlockStart {
            block_type: BlockType::Style,
            params: crate::node::BlockParamsM {
                style_type: Some(style_type),
                ..spec_params_default()
            },
        },
        CommandResultM::StyleEnd { style_type } => NodeM::BlockEnd {
            block_type: BlockType::Style,
            params: crate::node::BlockParamsM {
                style_type: Some(style_type),
                ..spec_params_default()
            },
        },
        CommandResultM::AnnotationRangeStart => NodeM::BlockStart {
            block_type: BlockType::AnnotationRange,
            params: spec_params_default(),
        },
        CommandResultM::LeftAnnotationRangeStart => NodeM::BlockStart {
            block_type: BlockType::LeftAnnotationRange,
            params: spec_params_default(),
        },
        CommandResultM::AnnotationRangeEnd { annotation } => NodeM::BlockEnd {
            block_type: BlockType::AnnotationRange,
            params: crate::node::BlockParamsM {
                annotation: Some(annotation),
                ..spec_params_default()
            },
        },
        CommandResultM::LeftAnnotationRangeEnd { annotation } => NodeM::BlockEnd {
            block_type: BlockType::LeftAnnotationRange,
            params: crate::node::BlockParamsM {
                annotation: Some(annotation),
                ..spec_params_default()
            },
        },
        CommandResultM::Unknown(text) => NodeM::Note(text),
    }
}

/// The heading specification re-spelled from level and style.
pub open spec fn spec_midashi_spec_name(
    level: crate::node::MidashiLevel,
    style: crate::node::MidashiStyle,
) -> Seq<char> {
    let base = match level {
        crate::node::MidashiLevel::O => "大見出し"@,
        crate::node::MidashiLevel::Naka => "中見出し"@,
        crate::node::MidashiLevel::Ko => "小見出し"@,
    };
    match style {
        crate::node::MidashiStyle::Normal => base,
        crate::node::MidashiStyle::Dogyo => "同行"@ + base,
        crate::node::MidashiStyle::Mado => "窓"@ + base,
    }
}

/// The node of one directive.
pub open spec fn spec_parse_command_to_node(content: Seq<char>) -> NodeM {
    spec_command_node(spec_parse_command(content))
}

/// The nodes of one token: commands through the interpreter, glyphs through
/// the conversion table, accent spans through the accent table, ruby with
/// its base left empty for the resolver.
pub open spec fn spec_parse_token(t: TokenM) -> Seq<NodeM>
    decreases t,
{
    match t {
        TokenM::Text(s) => seq![NodeM::Text(s)],
        TokenM::Ruby { children } => seq![
            NodeM::Ruby {
                children: Seq::empty(),
                ruby: spec_parse_tokens(children),
                direction: RubyDirection::Right,
            },
        ],
        TokenM::PrefixedRuby { base_children, ruby_children } => seq![
            NodeM::Ruby {
                children: spec_parse_tokens(base_children),
                ruby: spec_parse_tokens(ruby_children),
                direction: RubyDirection::Right,
            },
        ],
        TokenM::Command { content } => seq![spec_parse_command_to_node(content)],
        TokenM::Gaiji { description } => seq![spec_gaiji_node(description)],
        TokenM::Accent { children } => {
            let inner = spec_parse_tokens(children);
            let text = spec_inner_text(inner);
            spec_accent_nodes(spec_parse_accent(text, 0, Seq::empty()))
        },
    }
}

/// The concatenated plain text of nodes, as the accent span reads it.
pub open spec fn spec_inner_text(ns: Seq<NodeM>) -> Seq<char> {
    crate::node::spec_nodes_text(ns)
}

/// The nodes of the parsed accent pieces.
pub open spec fn spec_accent_nodes(ps: Seq<AccentPartM>) -> Seq<NodeM>
    decreases ps.len(),
{
    if ps.len() == 0 {
        Seq::empty()
    } else {
        spec_accent_nodes(ps.drop_last()).push(
            match ps.last() {
                AccentPartM::Text(s) => NodeM::Text(s),
                AccentPartM::Accent { jis_code, name, unicode } => NodeM::Accent {
                    code: jis_code,
                    name,
                    unicode: Some(unicode),
                },
            },
        )
    }
}

/// The nodes of a token list, in order.
pub open spec fn spec_parse_tokens(ts: Seq<TokenM>) -> Seq<NodeM>
    decreases ts,
{
    if ts.len() == 0 {
        Seq::empty()
    } else {
        spec_parse_tokens(ts.drop_last()) + spec_parse_token(ts.last())
    }
}

/// Whether the node just before a two-half-line note opens a parenthesis.
pub open spec fn spec_open_paren_before(ns: Seq<NodeM>) -> bool {
    ns.len() > 0 && (ns.last() matches NodeM::Text(s) && spec_ends_with(s, "（"@))
}

/// Whether the token just after a two-half-line note closes a parenthesis.
pub open spec fn spec_close_paren_after(ts: Seq<TokenM>, i: int) -> bool {
    0 <= i + 1 < ts.len() && (ts[i + 1] matches TokenM::Text(s) && spec_starts_with(s, "）"@))
}

/// The node of a command seen in context: a two-half-line note start or end
/// learns whether a parenthesis already stands beside it.
pub open spec fn spec_command_node_ctx(
    content: Seq<char>,
    ns: Seq<NodeM>,
    ts: Seq<TokenM>,
    i: int,
) -> NodeM {
    match spec_parse_command(content) {
        CommandResultM::WarigakiStart => NodeM::BlockStart {
            block_type: BlockType::Warigaki,
            params: crate::node::BlockParamsM {
                has_open_paren: spec_open_paren_before(ns),
                ..spec_params_default()
            },
        },
        CommandResultM::WarigakiEnd => NodeM::BlockEnd {
            block_type: BlockType::Warigaki,
            params: crate::node::BlockParamsM {
                has_close_paren: spec_close_paren_after(ts, i),
                ..spec_params_default()
            },
        },
        _ => spec_parse_command_to_node(content),
    }
}

/// The nodes of a token list parsed with context, before resolution.
pub open spec fn spec_parse_with_context(ts: Seq<TokenM>, i: int, acc: Seq<NodeM>) -> Seq<NodeM>
    decreases ts.len() - i,
    when 0 <= i
{
    if i >= ts.len() {
        acc
    } else {
        let emitted = match ts[i] {
            TokenM::Command { content } => seq![spec_command_node_ctx(content, acc, ts, i)],
            _ => spec_parse_token(ts[i]),
        };
        spec_parse_with_context(ts, i + 1, acc + emitted)
    }
}

/// The parse of a token list: nodes built with context, then resolved.
pub open spec fn spec_parse(ts: Seq<TokenM>) -> Seq<NodeM> {
    spec_resolve(spec_parse_with_context(ts, 0, Seq::empty()))
}

/// The node of one directive.
pub fn parse_command_to_node(content: &str) -> (r: Node)
    ensures
        r.model() == spec_parse_command_to_node(content@),
{
    command_node(parse_command(content))
}

/// Build the node of an interpreted command.
fn command_node(c: CommandResult) -> (r: Node)
    ensures
        r.model() == spec_command_node(c.model()),
{
    match c {
        CommandResult::Style { target, connector, style_type } => {
            let name = style_type.command_name();
            Node::UnresolvedReference { target, spec_text: name.to_owned(), connector }
        },
        CommandResult::Midashi { target, level, style } => {
            let base = match level {
                crate::node::MidashiLevel::O => "大見出し",
                crate::node::MidashiLevel::Naka => "中見出し",
                crate::node::MidashiLevel::Ko => "小見出し",
            };
            let mut spec_text = String::new();
            match style {
                crate::node::MidashiStyle::Normal => {},
                crate::node::MidashiStyle::Dogyo => spec_text.append("同行"),
                crate::node::MidashiStyle::Mado => spec_text.append("窓"),
            }
            spec_text.append(base);
            proof {
                assert(spec_text@ =~= spec_midashi_spec_name(level, style));
            }
            Node::UnresolvedReference { target, spec_text, connector: "は".to_owned() }
        },
        CommandResult::FontSize { target, size_type, level } => {
            let mut spec_text = crate::strutil::u32_to_string(level);
            if matches!(size_type, crate::node::FontSizeType::Dai) {
                spec_text.append("段階大きな文字");
            } else {
                spec_text.append("段階小さな文字");
            }
            Node::UnresolvedReference { target, spec_text, connector: "は".to_owned() }
        },
        CommandResult::BlockStart { block_type, params } => Node::BlockStart {
            block_type,
            params,
        },
        CommandResult::BlockEnd { block_type } => Node::BlockEnd {
            block_type,
            params: BlockParams::default(),
        },
        CommandResult::LineIndent { width } => {
            let mut params = BlockParams::default();
            params.width = Some(width);
            Node::BlockStart { block_type: BlockType::Jisage, params }
        },
        CommandResult::LineChitsuki { width } => {
            let mut params = BlockParams::default();
            params.width = if width > 0 {
                Some(width)
            } else {
                None
            };
            Node::BlockStart { block_type: BlockType::Chitsuki, params }
        },
        CommandResult::Note(text) => Node::Note(text),
        CommandResult::Image { filename, alt, width, height } => Node::Img {
            filename,
            alt,
            css_class: String::new(),
            width,
            height,
        },
        CommandResult::Kaeriten(text) => Node::Kaeriten(text),
        CommandResult::Okurigana(text) => Node::Okurigana(text),
        CommandResult::TcyStart => Node::BlockStart {
            block_type: BlockType::Tcy,
            params: BlockParams::default(),
        },
        CommandResult::TcyEnd => Node::BlockEnd {
            block_type: BlockType::Tcy,
            params: BlockParams::default(),
        },
        CommandResult::WarigakiStart => Node::BlockStart {
            block_type: BlockType::Warigaki,
            params: BlockParams::default(),
        },
        CommandResult::WarigakiEnd => Node::BlockEnd {
            block_type: BlockType::Warigaki,
            params: BlockParams::default(),
        },
        CommandResult::CaptionStart => Node::BlockStart {
            block_type: BlockType::Caption,
            params: BlockParams::default(),
        },
        CommandResult::CaptionEnd => Node::BlockEnd {
            block_type: BlockType::Caption,
            params: BlockParams::default(),
        },
        CommandResult::LeftRuby { target, ruby } => {
            let mut text = String::from_str("「");
            text.append(target.as_str());
            text.append("」の左に「");
            text.append(ruby.as_str());
            text.append("」のルビ");
            Node::Note(text)
        },
        CommandResult::AnnotationRuby { target, annotation } => {
            let mut spec_text = String::from_str("annotation_ruby:");
            spec_text.append(annotation.as_str());
            Node::UnresolvedReference { target, spec_text, connector: "に".to_owned() }
        },
        CommandResult::SideNote { target, annotation } => {
            let mut spec_text = String::from_str("side_note:");
            spec_text.append(annotation.as_str());
            Node::UnresolvedReference { target, spec_text, connector: "に".to_owned() }
        },
        CommandResult::InlineTcy { target } => Node::UnresolvedReference {
            target,
            spec_text: "縦中横".to_owned(),
            connector: "は".to_owned(),
        },
        CommandResult::InlineKeigakomi { target } => Node::UnresolvedReference {
            target,
            spec_text: "罫囲み".to_owned(),
            connector: "は".to_owned(),
        },
        CommandResult::InlineYokogumi { target } => Node::UnresolvedReference {
            target,
            spec_text: "横組み".to_owned(),
            connector: "は".to_owned(),
        },
        CommandResult::InlineCaption { target } => Node::UnresolvedReference {
            target,
            spec_text: "キャプション".to_owned(),
            connector: "は".to_owned(),
        },
        CommandResult::StyleStart { style_type } => {
            let mut params = BlockParams::default();
            params.style_type = Some(style_type);
            Node::BlockStart { block_type: BlockType::Style, params }
        },
        CommandResult::StyleEnd { style_type } => {
            let mut params = BlockParams::default();
            params.style_type = Some(style_type);
            Node::BlockEnd { block_type: BlockType::Style, params }
        },
        CommandResult::AnnotationRangeStart => Node::BlockStart {
            block_type: BlockType::AnnotationRange,
            params: BlockParams::default(),
        },
        CommandResult::LeftAnnotationRangeStart => Node::BlockStart {
            block_type: BlockType::LeftAnnotationRange,
            params: BlockParams::default(),
        },
        CommandResult::AnnotationRangeEnd { annotation } => {
            let mut params = BlockParams::default();
            params.annotation = Some(annotation);
            Node::BlockEnd { block_type: BlockType::AnnotationRange, params }
        },
        CommandResult::LeftAnnotationRangeEnd { annotation } => {
            let mut params = BlockParams::default();
            params.annotation = Some(annotation);
            Node::BlockEnd { block_type: BlockType::LeftAnnotationRange, params }
        },
        CommandResult::Unknown(text) => Node::Note(text),
    }
}

/// The nodes of one token.
pub fn parse_token(token: &Token) -> (r: Vec<Node>)
    ensures
        nodes_model(r@) == spec_parse_token(token.model()),
    decreases token,
{
    match token {
        Token::Text(s) => {
            let mut r: Vec<Node> = Vec::new();
            r.push(Node::Text(s.clone()));
            proof {
                assert(nodes_model(r@) =~= seq![NodeM::Text(s@)]);
            }
            r
        },
        Token::Ruby { children } => {
            let ruby_nodes = parse_tokens(children);
            let mut r: Vec<Node> = Vec::new();
            r.push(Node::Ruby {
                children: Vec::new(),
                ruby: ruby_nodes,
                direction: RubyDirection::Right,
            });
            proof {
                assert(nodes_model(Seq::<Node>::empty()) =~= Seq::<NodeM>::empty());
                assert(nodes_model(r@) =~= spec_parse_token(token.model()));
            }
            r
        },
        Token::PrefixedRuby { base_children, ruby_children } => {
            let base_nodes = parse_tokens(base_children);
            let ruby_nodes = parse_tokens(ruby_children);
            let mut r: Vec<Node> = Vec::new();
            r.push(Node::Ruby {
                children: base_nodes,
                ruby: ruby_nodes,
                direction: RubyDirection::Right,
            });
            proof {
                assert(nodes_model(r@) =~= spec_parse_token(token.model()));
            }
            r
        },
        Token::Command { content } => {
            let mut r: Vec<Node> = Vec::new();
            r.push(parse_command_to_node(content.as_str()));
            proof {
                assert(nodes_model(r@) =~= spec_parse_token(token.model()));
            }
            r
        },
        Token::Gaiji { description } => {
            let mut r: Vec<Node> = Vec::new();
            r.push(gaiji_node(description.as_str()));
            proof {
                assert(nodes_model(r@) =~= spec_parse_token(token.model()));
            }
            r
        },
        Token::Accent { children } => {
            let inner = parse_tokens(children);
            let text = crate::node::nodes_text(&inner);
            let parts = parse_accent(text.as_str());
            let mut r: Vec<Node> = Vec::new();
            let ghost pm = crate::accent::parts_model(parts@);
            let mut i: usize = 0;
            proof {
                crate::accent::lemma_parts_model(parts@);
                assert(pm.subrange(0, 0) =~= Seq::<AccentPartM>::empty());
                assert(spec_accent_nodes(pm.subrange(0, 0)) =~= Seq::<NodeM>::empty());
                assert(nodes_model(r@) =~= spec_accent_nodes(pm.subrange(0, 0)));
            }
            while i < parts.len()
                invariant
                    i <= parts@.len(),
                    pm == crate::accent::parts_model(parts@),
                    pm.len() == parts@.len(),
                    nodes_model(r@) == spec_accent_nodes(pm.subrange(0, i as int)),
                decreases parts@.len() - i,
            {
                proof {
                    crate::accent::lemma_parts_model(parts@);
                    assert(pm.subrange(0, i as int + 1).drop_last() =~= pm.subrange(0, i as int));
                    assert(pm.subrange(0, i as int + 1).last() == pm[i as int]);
                    assert(pm[i as int] == parts@[i as int].model());
                }
                let ghost before = nodes_model(r@);
                match &parts[i] {
                    AccentPart::Text(s) => {
                        r.push(Node::Text(s.clone()));
                        proof {
                            assert(nodes_model(r@) =~= before.push(NodeM::Text(s@)));
                        }
                    },
                    AccentPart::Accent { jis_code, name, unicode } => {
                        r.push(Node::Accent {
                            code: jis_code.clone(),
                            name: name.clone(),
                            unicode: Some(unicode.clone()),
                        });
                        proof {
                            assert(nodes_model(r@) =~= before.push(NodeM::Accent {
                                code: jis_code@,
                                name: name@,
                                unicode: Some(unicode@),
                            }));
                        }
                    },
                }
                i += 1;
            }
            proof {
                assert(pm.subrange(0, pm.len() as int) =~= pm);
            }
            r
        },
    }
}

/// The nodes of a token list, in order, references left unresolved.
pub fn parse_tokens(tokens: &Vec<Token>) -> (r: Vec<Node>)
    ensures
        nodes_model(r@) == spec_parse_tokens(tokens_model(tokens@)),
    decreases tokens,
{
    let ghost tm = tokens_model(tokens@);
    let mut r: Vec<Node> = Vec::new();
    let mut i: usize = 0;
    proof {
        assert(tm.subrange(0, 0) =~= Seq::<TokenM>::empty());
        assert(nodes_model(r@) =~= spec_parse_tokens(tm.subrange(0, 0)));
    }
    while i < tokens.len()
        invariant
            i <= tokens@.len(),
            tm == tokens_model(tokens@),
            tm.len() == tokens@.len(),
            nodes_model(r@) == spec_parse_tokens(tm.subrange(0, i as int)),
        decreases tokens@.len() - i,
    {
        let ghost before = nodes_model(r@);
        let nodes = parse_token(&tokens[i]);
        append_all(&mut r, nodes);
        proof {
            assert(tm.subrange(0, i as int + 1).drop_last() =~= tm.subrange(0, i as int));
            assert(tm.subrange(0, i as int + 1).last() == tm[i as int]);
            assert(nodes_model(r@) =~= spec_parse_tokens(tm.subrange(0, i as int + 1)));
        }
        i += 1;
    }
    proof {
        assert(tm.subrange(0, tm.len() as int) =~= tm);
    }
    r
}

/// Move every node of `src` to the end of `out`.
fn append_all(out: &mut Vec<Node>, src: Vec<Node>)
    ensures
        nodes_model(final(out)@) == nodes_model(old(out)@) + nodes_model(src@),
{
    let ghost sm = nodes_model(src@);
    let mut s = src;
    let mut i: usize = 0;
    proof {
        assert(sm.subrange(0, 0) =~= Seq::<NodeM>::empty());
        assert(nodes_model(out@) =~= nodes_model(old(out)@) + sm.subrange(0, 0));
    }
    while i < s.len()
        invariant
            i <= s@.len(),
            sm == nodes_model(s@),
            sm.len() == s@.len(),
            nodes_model(out@) == nodes_model(old(out)@) + sm.subrange(0, i as int),
        decreases s@.len() - i,
    {
        let ghost before = nodes_model(out@);
        out.push(s[i].clone());
        proof {
            assert(nodes_model(out@).drop_last() =~= before);
            assert(nodes_model(out@) =~= before.push(sm[i as int]));
            assert(sm.subrange(0, i as int + 1).drop_last() =~= sm.subrange(0, i as int));
            assert(sm.subrange(0, i as int + 1).last() == sm[i as int]);
            assert(nodes_model(out@) =~= nodes_model(old(out)@) + sm.subrange(0, i as int + 1));
        }
        i += 1;
    }
    proof {
        assert(sm.subrange(0, sm.len() as int) =~= sm);
    }
}

/// Parse a token list into resolved nodes.
pub fn parse(tokens: &Vec<Token>) -> (r: Vec<Node>)
    ensures
        nodes_model(r@) == spec_parse(tokens_model(tokens@)),
{
    let ghost tm = tokens_model(tokens@);
    let mut nodes: Vec<Node> = Vec::new();
    let mut i: usize = 0;
    proof {
        assert(nodes_model(nodes@) =~= Seq::<NodeM>::empty());
    }
    while i < tokens.len()
        invariant
            i <= tokens@.len(),
            tm == tokens_model(tokens@),
            tm.len() == tokens@.len(),
            spec_parse_with_context(tm, 0, Seq::empty()) == spec_parse_with_context(
                tm,
                i as int,
                nodes_model(nodes@),
            ),
        decreases tokens@.len() - i,
    {
        let ghost before = nodes_model(nodes@);
        proof {
            assert(tm[i as int] == tokens@[i as int].model());
        }
        let is_command: bool = matches!(&tokens[i], Token::Command { .. });
        if is_command {
            if let Token::Command { content } = &tokens[i] {
                let has_open = has_open_paren_before(&nodes);
                let has_close = has_close_paren_after(tokens, i);
                let node = parse_command_to_node_with_ctx(
                    content.as_str(),
                    has_open,
                    has_close,
                );
                proof {
                    assert(spec_open_paren_before(before) == has_open);
                    assert(spec_close_paren_after(tm, i as int) == has_close);
                }
                nodes.push(node);
                proof {
                    assert(nodes_model(nodes@) =~= before.push(spec_command_node_ctx(
                        content@,
                        before,
                        tm,
                        i as int,
                    )));
                    assert(before + seq![spec_command_node_ctx(content@, before, tm, i as int)]
                        =~= nodes_model(nodes@));
                }
            }
        } else {
            let emitted = parse_token(&tokens[i]);
            append_all(&mut nodes, emitted);
            proof {
                assert(nodes_model(nodes@) =~= before + spec_parse_token(tm[i as int]));
            }
        }
        i += 1;
    }
    resolve_references(&mut nodes);
    nodes
}

/// Whether the last node is text ending in an opening parenthesis.
fn has_open_paren_before(nodes: &Vec<Node>) -> (r: bool)
    ensures
        r == spec_open_paren_before(nodes_model(nodes@)),
{
    let n = nodes.len();
    if n == 0 {
        return false;
    }
    match &nodes[n - 1] {
        Node::Text(s) => {
            let v = crate::strutil::str_to_chars(s.as_str());
            crate::strutil::ends_with_pat(&v, &crate::strutil::str_to_chars("（"))
        },
        _ => false,
    }
}

/// Whether the next token is text starting with a closing parenthesis.
fn has_close_paren_after(tokens: &Vec<Token>, i: usize) -> (r: bool)
    requires
        i < tokens@.len(),
    ensures
        r == spec_close_paren_after(tokens_model(tokens@), i as int),
{
    let n = tokens.len();
    if i + 1 >= n {
        return false;
    }
    match &tokens[i + 1] {
        Token::Text(s) => {
            let v = crate::strutil::str_to_chars(s.as_str());
            crate::strutil::starts_with_pat(&v, &crate::strutil::str_to_chars("）"))
        },
        _ => false,
    }
}

/// The node of one directive seen beside its neighbours.
fn parse_command_to_node_with_ctx(content: &str, has_open: bool, has_close: bool) -> (r: Node)
    ensures
        ({
            let c = spec_parse_command(content@);
            r.model() == match c {
                CommandResultM::WarigakiStart => NodeM::BlockStart {
                    block_type: BlockType::Warigaki,
                    params: crate::node::BlockParamsM {
                        has_open_paren: has_open,
                        ..spec_params_default()
                    },
                },
                CommandResultM::WarigakiEnd => NodeM::BlockEnd {
                    block_type: BlockType::Warigaki,
                    params: crate::node::BlockParamsM {
                        has_close_paren: has_close,
                        ..spec_params_default()
                    },
                },
                _ => spec_parse_command_to_node(content@),
            }
        }),
{
    let c = parse_command(content);
    match &c {
        CommandResult::WarigakiStart => {
            let mut params = BlockParams::default();
            params.has_open_paren = has_open;
            Node::BlockStart { block_type: BlockType::Warigaki, params }
        },
        CommandResult::WarigakiEnd => {
            let mut params = BlockParams::default();
            params.has_close_paren = has_close;
            Node::BlockEnd { block_type: BlockType::Warigaki, params }
        },
        _ => command_node(c),
    }
}

} // verus!
