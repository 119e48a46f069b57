//! Reference resolution: three passes over a node list, each building a new
//! list. Ruby bases are attached backwards, annotation ranges collapse to
//! ruby, and backward references rewrite the earlier text they name.

use vstd::prelude::*;

use crate::node::block::spec_params_default;
use crate::node::midashi::{spec_midashi_level_from, spec_midashi_style_from, MidashiLevel,
    MidashiStyle};
use crate::node::style::{spec_style_from, StyleType};
use crate::node::{clone_nodes, nodes_model, spec_nodes_text, spec_to_text, BlockType,
    FontSizeType, Node, NodeM, RubyDirection};
use crate::parser::ruby_parser::{extract_ruby_base_from_nodes, spec_extract_base_nodes};
use crate::strutil::{chars_subrange, chars_to_string, eq_pat, lemma_spec_rfind_down, push_char,
    rfind_pat, spec_rfind, spec_starts_with, starts_with_pat, str_to_chars};
use crate::tokenizer::{spec_tokenize, tokenize};
use crate::token::{tokens_model, Token, TokenM};
use crate::gaiji::{parse_gaiji, spec_parse_gaiji, GaijiResult, GaijiResultM};

verus! {

broadcast use crate::node::lemma_nodes_model, crate::token::lemma_tokens_model;

// ---------------------------------------------------------------------
// pass 1: ruby bases
// ---------------------------------------------------------------------

/// One left-to-right pass: every gloss-only ruby pulls its base out of the
/// already-processed nodes before it, where one can be extracted; a ruby
/// with no extractable base keeps its empty base.
pub open spec fn spec_pass_ruby(ns: Seq<NodeM>, acc: Seq<NodeM>) -> Seq<NodeM>
    decreases ns.len(),
{
    if ns.len() == 0 {
        acc
    } else {
        let h = ns.first();
        let rest = ns.drop_first();
        match h {
            NodeM::Ruby { children, ruby, direction } => {
                if children.len() == 0 && ruby.len() > 0 {
                    match spec_extract_base_nodes(acc) {
                        Some(rb) => spec_pass_ruby(
                            rest,
                            rb.0.push(NodeM::Ruby { children: rb.1, ruby, direction }),
                        ),
                        None => spec_pass_ruby(rest, acc.push(h)),
                    }
                } else {
                    spec_pass_ruby(rest, acc.push(h))
                }
            },
            _ => spec_pass_ruby(rest, acc.push(h)),
        }
    }
}

/// Attach a base to every gloss-only ruby that can take one from the nodes
/// before it.
pub fn resolve_inline_ruby(nodes: &mut Vec<Node>)
    ensures
        nodes_model(final(nodes)@) == spec_pass_ruby(nodes_model(old(nodes)@), Seq::empty()),
{
    let ghost m = nodes_model(old(nodes)@);
    let ghost total = spec_pass_ruby(m, Seq::empty());
    proof {
        assert(m.subrange(0, m.len() as int) =~= m);
    }
    let n = nodes.len();
    let mut acc: Vec<Node> = Vec::new();
    let mut i: usize = 0;
    while i < n
        invariant
            i <= n,
            n == nodes@.len(),
            m == nodes_model(nodes@),
            m.len() == n,
            total == spec_pass_ruby(m, Seq::empty()),
            total == spec_pass_ruby(m.subrange(i as int, n as int), nodes_model(acc@)),
        decreases n - i,
    {
        let ghost suffix = m.subrange(i as int, n as int);
        let ghost accm = nodes_model(acc@);
        proof {
            assert(suffix.first() == m[i as int]);
            assert(suffix.drop_first() =~= m.subrange(i as int + 1, n as int));
        }
        let h = nodes[i].clone();
        let is_unresolved_ruby: bool = match &h {
            Node::Ruby { children, ruby, .. } => children.len() == 0 && ruby.len() > 0,
            _ => false,
        };
        if is_unresolved_ruby {
            if let Node::Ruby { children, ruby, direction } = h {
                proof {
                    assert(nodes_model(children@).len() == 0);
                    assert(nodes_model(ruby@).len() > 0);
                }
                match extract_ruby_base_from_nodes(&acc) {
                    Some((rem, base)) => {
                        let ghost remm = nodes_model(rem@);
                        let ghost basem = nodes_model(base@);
                        let mut next = rem;
                        next.push(Node::Ruby { children: base, ruby, direction });
                        proof {
                            assert(next@.drop_last() =~= next@.subrange(
                                0,
                                next@.len() as int - 1,
                            ));
                            assert(nodes_model(next@) =~= remm.push(NodeM::Ruby {
                                children: basem,
                                ruby: m[i as int]->Ruby_ruby,
                                direction,
                            }));
                        }
                        acc = next;
                    },
                    None => {
                        acc.push(Node::Ruby { children, ruby, direction });
                        proof {
                            assert(nodes_model(acc@) =~= accm.push(m[i as int]));
                        }
                    },
                }
            }
        } else {
            acc.push(h);
            proof {
                assert(nodes_model(acc@) =~= accm.push(m[i as int]));
            }
        }
        i += 1;
    }
    proof {
        assert(m.subrange(n as int, n as int) =~= Seq::<NodeM>::empty());
    }
    *nodes = acc;
}

// ---------------------------------------------------------------------
// pass 2: annotation ranges
// ---------------------------------------------------------------------

/// Whether a node opens an annotation range.
pub open spec fn is_annot_start(n: NodeM) -> bool {
    n matches NodeM::BlockStart { block_type, .. } && (block_type == BlockType::AnnotationRange
        || block_type == BlockType::LeftAnnotationRange)
}

/// Whether the start is the left-hand variant.
pub open spec fn annot_start_left(n: NodeM) -> bool {
    n matches NodeM::BlockStart { block_type, .. } && block_type
        == BlockType::LeftAnnotationRange
}

/// Whether a node closes an annotation range of the given side.
pub open spec fn is_annot_end(n: NodeM, left: bool) -> bool {
    n matches NodeM::BlockEnd { block_type, .. } && block_type == (if left {
        BlockType::LeftAnnotationRange
    } else {
        BlockType::AnnotationRange
    })
}

/// First index at or after `j` that closes an annotation range, or `-1`.
pub open spec fn find_annot_end(rest: Seq<NodeM>, left: bool, j: int) -> int
    decreases rest.len() - j,
    when 0 <= j
{
    if j >= rest.len() {
        -1
    } else if is_annot_end(rest[j], left) {
        j
    } else {
        find_annot_end(rest, left, j + 1)
    }
}

proof fn lemma_find_annot_end(rest: Seq<NodeM>, left: bool, j: int)
    requires
        0 <= j,
    ensures
        find_annot_end(rest, left, j) == -1 || (j <= find_annot_end(rest, left, j)
            < rest.len() && is_annot_end(rest[find_annot_end(rest, left, j)], left)),
    decreases rest.len() - j,
{
    if j < rest.len() && !is_annot_end(rest[j], left) {
        lemma_find_annot_end(rest, left, j + 1);
    }
}

/// The annotation carried by a range closer.
pub open spec fn annot_of(n: NodeM) -> Option<Seq<char>> {
    match n {
        NodeM::BlockEnd { params, .. } => params.annotation,
        _ => None,
    }
}

/// The number of annotation-range openers in the list.
pub open spec fn count_starts(ns: Seq<NodeM>) -> int
    decreases ns.len(),
{
    if ns.len() == 0 {
        0int
    } else {
        count_starts(ns.drop_last()) + if is_annot_start(ns.last()) {
            1int
        } else {
            0int
        }
    }
}

proof fn lemma_count_starts_add(a: Seq<NodeM>, b: Seq<NodeM>)
    ensures
        count_starts(a + b) == count_starts(a) + count_starts(b),
        count_starts(a) >= 0,
        count_starts(b) >= 0,
    decreases b.len(),
{
    lemma_count_starts_nonneg(a);
    lemma_count_starts_nonneg(b);
    if b.len() == 0 {
        assert(a + b =~= a);
    } else {
        lemma_count_starts_add(a, b.drop_last());
        assert((a + b).drop_last() =~= a + b.drop_last());
        assert((a + b).last() == b.last());
    }
}

proof fn lemma_count_single(x: NodeM)
    ensures
        count_starts(seq![x]) == if is_annot_start(x) {
            1int
        } else {
            0int
        },
{
    assert(seq![x].drop_last() =~= Seq::<NodeM>::empty());
    assert(count_starts(seq![x].drop_last()) == 0);
    assert(seq![x].last() == x);
}

proof fn lemma_count_starts_nonneg(ns: Seq<NodeM>)
    ensures
        count_starts(ns) >= 0,
    decreases ns.len(),
{
    if ns.len() > 0 {
        lemma_count_starts_nonneg(ns.drop_last());
    }
}

/// The nodes of an annotation text: the text re-tokenized, keeping plain
/// text and glyph directives and dropping everything else.
pub open spec fn spec_annot_from_tokens(ts: Seq<TokenM>) -> Seq<NodeM>
    decreases ts.len(),
{
    if ts.len() == 0 {
        Seq::empty()
    } else {
        let r = spec_annot_from_tokens(ts.drop_last());
        match ts.last() {
            TokenM::Text(s) => r.push(NodeM::Text(s)),
            TokenM::Gaiji { description } => r.push(spec_gaiji_node(description)),
            _ => r,
        }
    }
}

/// The nodes of an annotation text.
pub open spec fn spec_annotation_nodes(a: Seq<char>) -> Seq<NodeM> {
    spec_annot_from_tokens(spec_tokenize(a))
}

/// The node of one glyph directive: the description with whatever the
/// conversion found.
pub open spec fn spec_gaiji_node(d: Seq<char>) -> NodeM {
    match spec_parse_gaiji(d) {
        GaijiResultM::Unicode(u) => NodeM::Gaiji { description: d, unicode: Some(u), jis_code: None },
        GaijiResultM::JisConverted { jis_code, unicode } => NodeM::Gaiji {
            description: d,
            unicode: Some(unicode),
            jis_code: Some(jis_code),
        },
        GaijiResultM::JisImage { jis_code } => NodeM::Gaiji {
            description: d,
            unicode: None,
            jis_code: Some(jis_code),
        },
        GaijiResultM::Unconvertible => NodeM::Gaiji { description: d, unicode: None, jis_code: None },
    }
}

/// Convert one glyph directive to its node.
pub fn gaiji_node(description: &str) -> (r: Node)
    ensures
        r.model() == spec_gaiji_node(description@),
{
    match parse_gaiji(description) {
        GaijiResult::Unicode(u) => Node::Gaiji {
            description: description.to_owned(),
            unicode: Some(u),
            jis_code: None,
        },
        GaijiResult::JisConverted { jis_code, unicode } => Node::Gaiji {
            description: description.to_owned(),
            unicode: Some(unicode),
            jis_code: Some(jis_code),
        },
        GaijiResult::JisImage { jis_code } => Node::Gaiji {
            description: description.to_owned(),
            unicode: None,
            jis_code: Some(jis_code),
        },
        GaijiResult::Unconvertible => Node::Gaiji {
            description: description.to_owned(),
            unicode: None,
            jis_code: None,
        },
    }
}

/// The nodes of an annotation text.
pub fn annotation_text_nodes(a: &str) -> (r: Vec<Node>)
    ensures
        nodes_model(r@) == spec_annotation_nodes(a@),
{
    let tokens = tokenize(a);
    let ghost tm = tokens_model(tokens@);
    let mut r: Vec<Node> = Vec::new();
    let mut i: usize = 0;
    proof {
        assert(tm.subrange(0, 0) =~= Seq::<TokenM>::empty());
    }
    while i < tokens.len()
        invariant
            i <= tokens@.len(),
            tm == tokens_model(tokens@),
            tm.len() == tokens@.len(),
            nodes_model(r@) == spec_annot_from_tokens(tm.subrange(0, i as int)),
        decreases tokens@.len() - i,
    {
        proof {
            assert(tm.subrange(0, i as int + 1).drop_last() =~= tm.subrange(0, i as int));
            assert(tm.subrange(0, i as int + 1).last() == tm[i as int]);
            assert(tm[i as int] == tokens@[i as int].model());
        }
        let ghost old_r = nodes_model(r@);
        match &tokens[i] {
            Token::Text(s) => {
                r.push(Node::Text(s.clone()));
                proof {
                    assert(nodes_model(r@) =~= old_r.push(NodeM::Text(s@)));
                }
            },
            Token::Gaiji { description } => {
                r.push(gaiji_node(description.as_str()));
                proof {
                    assert(nodes_model(r@) =~= old_r.push(spec_gaiji_node(description@)));
                }
            },
            _ => {},
        }
        i += 1;
    }
    proof {
        assert(tm.subrange(0, tm.len() as int) =~= tm);
    }
    r
}

/// One pass collapsing each matched annotation pair: the wrapped nodes
/// become a ruby base and the closer's bracket text its gloss; the
/// left-hand variant is kept as a verbatim marker pair instead. The
/// rewritten segment is scanned again, as the splice leaves it in place.
pub open spec fn spec_pass_annot(ns: Seq<NodeM>, acc: Seq<NodeM>) -> Seq<NodeM>
    decreases count_starts(ns), ns.len(),
    when count_starts(ns) >= 0
    via spec_pass_annot_decreases
{
    if ns.len() == 0 {
        acc
    } else {
        let h = ns.first();
        let rest = ns.drop_first();
        if is_annot_start(h) {
            let left = annot_start_left(h);
            let j = find_annot_end(rest, left, 0);
            if j < 0 || annot_of(rest[j]) is None {
                spec_pass_annot(rest, acc.push(h))
            } else {
                let a = annot_of(rest[j])->0;
                let children = rest.subrange(0, j);
                let tail = rest.subrange(j + 1, rest.len() as int);
                if left {
                    spec_pass_annot(
                        seq![NodeM::Note("左に注記付き"@)] + children + seq![
                            NodeM::AnnotationEnd {
                                prefix: "左に「"@,
                                content: spec_annotation_nodes(a),
                                suffix: "」の注記付き終わり"@,
                            },
                        ] + tail,
                        acc,
                    )
                } else {
                    spec_pass_annot(
                        seq![NodeM::Ruby {
                            children,
                            ruby: spec_annotation_nodes(a),
                            direction: RubyDirection::Right,
                        }] + tail,
                        acc,
                    )
                }
            }
        } else {
            spec_pass_annot(rest, acc.push(h))
        }
    }
}

#[via_fn]
proof fn spec_pass_annot_decreases(ns: Seq<NodeM>, acc: Seq<NodeM>) {
    if ns.len() > 0 {
        let h = ns.first();
        let rest = ns.drop_first();
        lemma_count_starts_nonneg(rest);
        assert(ns =~= seq![h] + rest);
        lemma_count_starts_add(seq![h], rest);
        lemma_count_single(h);
        if is_annot_start(h) {
            let left = annot_start_left(h);
            let j = find_annot_end(rest, left, 0);
            lemma_find_annot_end(rest, left, 0);
            if !(j < 0 || annot_of(rest[j]) is None) {
                let a = annot_of(rest[j])->0;
                let children = rest.subrange(0, j);
                let tail = rest.subrange(j + 1, rest.len() as int);
                assert(rest =~= children + seq![rest[j]] + tail);
                lemma_count_starts_add(children + seq![rest[j]], tail);
                lemma_count_starts_add(children, seq![rest[j]]);
                lemma_count_single(rest[j]);
                assert(!is_annot_start(rest[j]));
                let ann_end = NodeM::AnnotationEnd {
                    prefix: "左に「"@,
                    content: spec_annotation_nodes(a),
                    suffix: "」の注記付き終わり"@,
                };
                let note = NodeM::Note("左に注記付き"@);
                lemma_count_starts_add(seq![note] + children + seq![ann_end], tail);
                lemma_count_starts_add(seq![note] + children, seq![ann_end]);
                lemma_count_starts_add(seq![note], children);
                lemma_count_single(note);
                lemma_count_single(ann_end);
                let ruby = NodeM::Ruby {
                    children,
                    ruby: spec_annotation_nodes(a),
                    direction: RubyDirection::Right,
                };
                lemma_count_starts_add(seq![ruby], tail);
                lemma_count_single(ruby);
                lemma_count_starts_nonneg(children);
            }
        }
    }
}

/// Find the matching closer at or after `from`.
fn find_end_exec(work: &Vec<Node>, from: usize, left: bool) -> (r: Option<usize>)
    requires
        from <= work@.len(),
    ensures
        ({
            let wm = nodes_model(work@);
            let rest = wm.subrange(from as int, wm.len() as int);
            match r {
                Some(j) => from <= j < work@.len() && find_annot_end(rest, left, 0) == j - from
                    && is_annot_end(wm[j as int], left),
                None => find_annot_end(rest, left, 0) == -1,
            }
        }),
{
    let ghost wm = nodes_model(work@);
    let ghost rest = wm.subrange(from as int, wm.len() as int);
    let mut j: usize = from;
    while j < work.len()
        invariant
            from <= j <= work@.len(),
            wm == nodes_model(work@),
            wm.len() == work@.len(),
            rest == wm.subrange(from as int, wm.len() as int),
            find_annot_end(rest, left, 0) == find_annot_end(rest, left, j - from),
        decreases work@.len() - j,
    {
        let is_end: bool = match &work[j] {
            Node::BlockEnd { block_type, .. } => {
                if left {
                    matches!(block_type, BlockType::LeftAnnotationRange)
                } else {
                    matches!(block_type, BlockType::AnnotationRange)
                }
            },
            _ => false,
        };
        proof {
            assert(rest[j - from] == wm[j as int]);
        }
        if is_end {
            return Some(j);
        }
        j += 1;
    }
    None
}

/// Collapse every matched annotation pair.
#[verifier::rlimit(100)]
pub fn resolve_annotation_ranges(nodes: &mut Vec<Node>)
    ensures
        nodes_model(final(nodes)@) == spec_pass_annot(nodes_model(old(nodes)@), Seq::empty()),
{
    let ghost m0 = nodes_model(old(nodes)@);
    let ghost total = spec_pass_annot(m0, Seq::empty());
    let mut work: Vec<Node> = clone_nodes(nodes);
    let mut acc: Vec<Node> = Vec::new();
    let mut i: usize = 0;
    proof {
        lemma_count_starts_nonneg(m0);
        assert(nodes_model(work@).subrange(0, m0.len() as int) =~= m0);
    }
    while i < work.len()
        invariant
            i <= work@.len(),
            total == spec_pass_annot(
                nodes_model(work@).subrange(i as int, work@.len() as int),
                nodes_model(acc@),
            ),
        decreases
            count_starts(nodes_model(work@).subrange(i as int, work@.len() as int)),
            work@.len() - i,
    {
        let ghost wm = nodes_model(work@);
        let ghost suffix = wm.subrange(i as int, wm.len() as int);
        let ghost accm = nodes_model(acc@);
        proof {
            lemma_count_starts_nonneg(suffix);
            lemma_count_starts_nonneg(wm.subrange(i as int + 1, wm.len() as int));
            assert(suffix.first() == wm[i as int]);
            assert(suffix.drop_first() =~= wm.subrange(i as int + 1, wm.len() as int));
        }
        let start_kind: Option<bool> = match &work[i] {
            Node::BlockStart { block_type, .. } => {
                if matches!(block_type, BlockType::AnnotationRange) {
                    Some(false)
                } else if matches!(block_type, BlockType::LeftAnnotationRange) {
                    Some(true)
                } else {
                    None
                }
            },
            _ => None,
        };
        let mut rewrite: Option<(usize, String, bool)> = None;
        let ghost rest = wm.subrange(i as int + 1, wm.len() as int);
        if let Some(left) = start_kind {
            match find_end_exec(&work, i + 1, left) {
                Some(j) => {
                    let mut ann: Option<String> = None;
                    match &work[j] {
                        Node::BlockEnd { params, .. } => {
                            ann = crate::node::clone_opt(&params.annotation);
                        },
                        _ => {},
                    }
                    proof {
                        assert(rest[j - i - 1] == wm[j as int]);
                    }
                    match ann {
                        Some(a) => {
                            rewrite = Some((j, a, left));
                        },
                        None => {
                            proof {
                                assert(annot_of(rest[j - i - 1]) is None);
                            }
                        },
                    }
                },
                None => {},
            }
        }
        match rewrite {
            Some((j, a, left)) => {
                let ghost am = a@;
                let ghost jr = j - i - 1;
                let ghost ch = rest.subrange(0, jr);
                let ghost tl = rest.subrange(jr + 1, rest.len() as int);
                let ghost mid = rest[jr];
                let ghost note = NodeM::Note("左に注記付き"@);
                let ghost ann_end = NodeM::AnnotationEnd {
                    prefix: "左に「"@,
                    content: spec_annotation_nodes(am),
                    suffix: "」の注記付き終わり"@,
                };
                let ghost rubym = NodeM::Ruby {
                    children: ch,
                    ruby: spec_annotation_nodes(am),
                    direction: RubyDirection::Right,
                };
                proof {
                    assert(is_annot_start(wm[i as int]));
                    assert(annot_start_left(wm[i as int]) == left);
                    assert(find_annot_end(rest, left, 0) == jr);
                    assert(annot_of(rest[jr]) == Some(am));
                    assert(ch =~= wm.subrange(i as int + 1, j as int));
                    assert(tl =~= wm.subrange(j as int + 1, wm.len() as int));
                }
                let ann_nodes = annotation_text_nodes(a.as_str());
                let mut new_work: Vec<Node> = Vec::new();
                if left {
                    new_work.push(Node::Note("左に注記付き".to_owned()));
                    proof {
                        assert(nodes_model(new_work@) =~= seq![note]);
                    }
                    append_range(&mut new_work, &work, i + 1, j);
                    let ghost s2 = nodes_model(new_work@);
                    proof {
                        assert(s2 =~= seq![note] + ch);
                    }
                    new_work.push(Node::AnnotationEnd {
                        prefix: "左に「".to_owned(),
                        content: ann_nodes,
                        suffix: "」の注記付き終わり".to_owned(),
                    });
                    proof {
                        assert(nodes_model(new_work@).drop_last() =~= s2);
                        assert(nodes_model(new_work@) =~= seq![note] + ch + seq![ann_end]);
                    }
                } else {
                    let children = clone_range(&work, i + 1, j);
                    new_work.push(Node::Ruby {
                        children,
                        ruby: ann_nodes,
                        direction: RubyDirection::Right,
                    });
                    proof {
                        assert(nodes_model(new_work@) =~= seq![rubym]);
                    }
                }
                let ghost seg = nodes_model(new_work@);
                append_range(&mut new_work, &work, j + 1, work.len());
                proof {
                    assert(nodes_model(new_work@) =~= seg + tl);
                    if left {
                        assert(nodes_model(new_work@) =~= seq![note] + ch + seq![ann_end] + tl);
                    } else {
                        assert(nodes_model(new_work@) =~= seq![rubym] + tl);
                    }
                    assert(nodes_model(new_work@).subrange(
                        0,
                        nodes_model(new_work@).len() as int,
                    ) =~= nodes_model(new_work@));
                    // the rewritten stream carries one opener fewer
                    lemma_count_starts_nonneg(tl);
                    lemma_count_starts_nonneg(ch);
                    assert(suffix =~= seq![wm[i as int]] + rest);
                    lemma_count_starts_add(seq![wm[i as int]], rest);
                    lemma_count_single(wm[i as int]);
                    assert(rest =~= ch + seq![mid] + tl);
                    lemma_count_starts_add(ch + seq![mid], tl);
                    lemma_count_starts_add(ch, seq![mid]);
                    lemma_count_single(mid);
                    assert(!is_annot_start(mid));
                    if left {
                        lemma_count_starts_add(seq![note] + ch + seq![ann_end], tl);
                        lemma_count_starts_add(seq![note] + ch, seq![ann_end]);
                        lemma_count_starts_add(seq![note], ch);
                        lemma_count_single(note);
                        lemma_count_single(ann_end);
                    } else {
                        lemma_count_starts_add(seq![rubym], tl);
                        lemma_count_single(rubym);
                    }
                    lemma_count_starts_nonneg(nodes_model(new_work@));
                    assert(total == spec_pass_annot(nodes_model(new_work@), nodes_model(acc@)));
                }
                work = new_work;
                i = 0;
            },
            None => {
                let h = work[i].clone();
                acc.push(h);
                proof {
                    assert(nodes_model(acc@) =~= accm.push(wm[i as int]));
                    if is_annot_start(wm[i as int]) {
                        let left0 = annot_start_left(wm[i as int]);
                        let j0 = find_annot_end(rest, left0, 0);
                        lemma_find_annot_end(rest, left0, 0);
                    }
                    assert(total == spec_pass_annot(
                        wm.subrange(i as int + 1, wm.len() as int),
                        nodes_model(acc@),
                    ));
                    lemma_count_starts_add(seq![wm[i as int]], rest);
                    lemma_count_single(wm[i as int]);
                    assert(suffix =~= seq![wm[i as int]] + rest);
                }
                i += 1;
            },
        }
    }
    proof {
        let wm = nodes_model(work@);
        assert(wm.subrange(i as int, wm.len() as int) =~= Seq::<NodeM>::empty());
    }
    *nodes = acc;
}

/// Clones of the nodes in `[from, to)`.
fn clone_range(nodes: &Vec<Node>, from: usize, to: usize) -> (r: Vec<Node>)
    requires
        from <= to <= nodes@.len(),
    ensures
        nodes_model(r@) == nodes_model(nodes@).subrange(from as int, to as int),
{
    let mut r: Vec<Node> = Vec::new();
    append_range(&mut r, nodes, from, to);
    proof {
        assert(nodes_model(r@) =~= nodes_model(nodes@).subrange(from as int, to as int));
    }
    r
}

/// Append clones of the nodes in `[from, to)`.
fn append_range(out: &mut Vec<Node>, nodes: &Vec<Node>, from: usize, to: usize)
    requires
        from <= to <= nodes@.len(),
    ensures
        nodes_model(final(out)@) == nodes_model(old(out)@) + nodes_model(nodes@).subrange(
            from as int,
            to as int,
        ),
{
    let mut i: usize = from;
    proof {
        assert(nodes_model(nodes@).subrange(from as int, from as int)
            =~= Seq::<NodeM>::empty());
        assert(nodes_model(out@) =~= nodes_model(old(out)@) + nodes_model(nodes@).subrange(
            from as int,
            from as int,
        ));
    }
    while i < to
        invariant
            from <= i <= to <= nodes@.len(),
            nodes_model(out@) == nodes_model(old(out)@) + nodes_model(nodes@).subrange(
                from as int,
                i as int,
            ),
        decreases to - i,
    {
        let ghost prev = out@;
        let c = nodes[i].clone();
        let ghost cm = c.model();
        out.push(c);
        i += 1;
        proof {
            assert(out@.drop_last() =~= prev);
            assert(nodes_model(out@).drop_last() =~= nodes_model(prev));
            assert(nodes_model(out@).last() == cm);
            assert(nodes_model(out@) =~= nodes_model(prev).push(cm));
            assert(nodes_model(nodes@).subrange(from as int, i as int).drop_last()
                =~= nodes_model(nodes@).subrange(from as int, i as int - 1));
            assert(nodes_model(out@) =~= nodes_model(old(out)@) + nodes_model(nodes@).subrange(
                from as int,
                i as int,
            ));
        }
    }
}

// ---------------------------------------------------------------------
// pass 3: backward references
// ---------------------------------------------------------------------

/// The plain text a node contributes when earlier text is searched: child
/// text for the wrapping kinds, base text only for ruby, nothing for the
/// rest.
pub open spec fn spec_plain_text(n: NodeM) -> Seq<char>
    decreases n,
{
    match n {
        NodeM::Text(t) => t,
        NodeM::Ruby { children, .. } => spec_plains(children),
        NodeM::Style { children, .. } => spec_plains(children),
        NodeM::FontSize { children, .. } => spec_plains(children),
        NodeM::Tcy { children } => spec_plains(children),
        NodeM::Keigakomi { children } => spec_plains(children),
        NodeM::Yokogumi { children } => spec_plains(children),
        NodeM::Caption { children } => spec_plains(children),
        NodeM::Midashi { children, .. } => spec_plains(children),
        _ => Seq::empty(),
    }
}

/// The concatenated plain text of a list of nodes.
pub open spec fn spec_plains(ns: Seq<NodeM>) -> Seq<char>
    decreases ns,
{
    if ns.len() == 0 {
        Seq::empty()
    } else {
        spec_plains(ns.drop_last()) + spec_plain_text(ns.last())
    }
}

/// The plain search text of one node.
fn plain_text(n: &Node) -> (r: String)
    ensures
        r@ == spec_plain_text(n.model()),
    decreases n,
{
    match n {
        Node::Text(t) => t.clone(),
        Node::Ruby { children, .. } => plains(children),
        Node::Style { children, .. } => plains(children),
        Node::FontSize { children, .. } => plains(children),
        Node::Tcy { children } => plains(children),
        Node::Keigakomi { children } => plains(children),
        Node::Yokogumi { children } => plains(children),
        Node::Caption { children } => plains(children),
        Node::Midashi { children, .. } => plains(children),
        _ => String::new(),
    }
}

/// The concatenated plain search text of a list of nodes.
fn plains(ns: &Vec<Node>) -> (r: String)
    ensures
        r@ == spec_plains(nodes_model(ns@)),
    decreases ns,
{
    let mut r = String::new();
    let mut i: usize = 0;
    proof {
        assert(nodes_model(ns@).subrange(0, 0) =~= Seq::<NodeM>::empty());
    }
    while i < ns.len()
        invariant
            i <= ns@.len(),
            r@ == spec_plains(nodes_model(ns@).subrange(0, i as int)),
        decreases ns@.len() - i,
    {
        let t = plain_text(&ns[i]);
        r.append(t.as_str());
        proof {
            let m = nodes_model(ns@);
            assert(m.subrange(0, i as int + 1).drop_last() =~= m.subrange(0, i as int));
            assert(m.subrange(0, i as int + 1).last() == m[i as int]);
        }
        i += 1;
    }
    proof {
        let m = nodes_model(ns@);
        assert(m.subrange(0, m.len() as int) =~= m);
    }
    r
}

/// Whether a node is of the kinds whose whole plain text may match a
/// target.
pub open spec fn is_wrapping(n: NodeM) -> bool {
    n matches NodeM::Style { .. } || n matches NodeM::FontSize { .. } || n matches NodeM::Tcy {
        ..
    } || n matches NodeM::Keigakomi { .. } || n matches NodeM::Yokogumi { .. }
        || n matches NodeM::Caption { .. } || n matches NodeM::Midashi { .. }
}

/// Where and how a target was found.
pub enum FoundAt {
    /// A text node equals the target.
    Exact(usize),
    /// The target's last occurrence inside a text node, at this position.
    Split(usize, usize),
    /// A contiguous span of nodes whose plain text equals the target.
    Span(usize, usize),
}

/// Where a target was found: a whole or split single node, searched from
/// the end.
pub open spec fn spec_find_single(ns: Seq<NodeM>, t: Seq<char>, i: int) -> Option<FoundAt>
    decreases i + 1,
{
    if i < 0 {
        None
    } else {
        match ns[i] {
            NodeM::Text(tx) => {
                if tx == t {
                    Some(FoundAt::Exact(i as usize))
                } else if spec_rfind(tx, t) >= 0 {
                    Some(FoundAt::Split(i as usize, spec_rfind(tx, t) as usize))
                } else {
                    spec_find_single(ns, t, i - 1)
                }
            },
            _ => {
                if is_wrapping(ns[i]) && spec_plain_text(ns[i]) == t {
                    Some(FoundAt::Span(i as usize, i as usize))
                } else {
                    spec_find_single(ns, t, i - 1)
                }
            },
        }
    }
}

/// Largest start at or below `end` whose span's plain text equals the
/// target, or `-1`.
pub open spec fn spec_span_start(ns: Seq<NodeM>, t: Seq<char>, end: int, start: int) -> int
    decreases start + 1,
{
    if start < 0 {
        -1
    } else if spec_plains(ns.subrange(start, end + 1)) == t {
        start
    } else {
        spec_span_start(ns, t, end, start - 1)
    }
}

/// Last span whose plain text equals the target, scanning ends from the
/// right.
pub open spec fn spec_find_span(ns: Seq<NodeM>, t: Seq<char>, end: int) -> Option<FoundAt>
    decreases end + 1,
{
    if end < 0 {
        None
    } else {
        let s = spec_span_start(ns, t, end, end);
        if s >= 0 {
            Some(FoundAt::Span(s as usize, end as usize))
        } else {
            spec_find_span(ns, t, end - 1)
        }
    }
}

/// Where a target is found among the preceding nodes: single nodes first
/// (exact, then split), then whole spans.
pub open spec fn spec_find_target(ns: Seq<NodeM>, t: Seq<char>) -> Option<FoundAt> {
    match spec_find_single(ns, t, ns.len() - 1) {
        Some(f) => Some(f),
        None => spec_find_span(ns, t, ns.len() - 1),
    }
}

/// What a reference specification asks to build.
pub open spec fn spec_kind_from(sp: Seq<char>) -> Option<KindM> {
    if spec_starts_with(sp, "annotation_ruby:"@) {
        Some(KindM::AnnotationRuby(sp.subrange("annotation_ruby:"@.len() as int, sp.len() as int)))
    } else if spec_starts_with(sp, "side_note:"@) {
        Some(KindM::SideNote(sp.subrange("side_note:"@.len() as int, sp.len() as int)))
    } else if spec_style_from(sp) is Some {
        Some(KindM::Style(spec_style_from(sp)->0))
    } else if spec_midashi_level_from(sp) is Some {
        Some(KindM::Midashi { level: spec_midashi_level_from(sp)->0, style: spec_midashi_style_from(sp) })
    } else if crate::node::block::spec_font_size_from(sp) is Some {
        Some(KindM::FontSize {
            size_type: (crate::node::block::spec_font_size_from(sp)->0).0,
            level: (crate::node::block::spec_font_size_from(sp)->0).1,
        })
    } else if sp == "縦中横"@ {
        Some(KindM::Tcy)
    } else if sp == "罫囲み"@ {
        Some(KindM::Keigakomi)
    } else if sp == "横組み"@ {
        Some(KindM::Yokogumi)
    } else if sp == "キャプション"@ {
        Some(KindM::Caption)
    } else {
        None
    }
}

/// The constructor a resolved reference uses.
pub enum KindM {
    /// A decorated span.
    Style(StyleType),
    /// A heading.
    Midashi { level: MidashiLevel, style: MidashiStyle },
    /// A font-size change.
    FontSize { size_type: FontSizeType, level: u32 },
    /// Vertical-in-horizontal.
    Tcy,
    /// Framed.
    Keigakomi,
    /// Horizontal run.
    Yokogumi,
    /// Caption.
    Caption,
    /// Annotation shown as ruby.
    AnnotationRuby(Seq<char>),
    /// Annotation repeated beside each character.
    SideNote(Seq<char>),
}

/// The annotation text repeated `k` times, joined by no-break spaces.
pub open spec fn spec_repeat_join(a: Seq<char>, k: int) -> Seq<char>
    decreases k,
{
    if k <= 1 {
        a
    } else {
        spec_repeat_join(a, k - 1) + seq!['\u{00a0}'] + a
    }
}

/// The node a resolved reference builds around the matched children.
pub open spec fn spec_create(kind: KindM, children: Seq<NodeM>) -> NodeM {
    match kind {
        KindM::Style(st) => NodeM::Style { children, style_type: st, class_name: Seq::empty() },
        KindM::Midashi { level, style } => NodeM::Midashi { children, level, style },
        KindM::FontSize { size_type, level } => NodeM::FontSize { children, size_type, level },
        KindM::Tcy => NodeM::Tcy { children },
        KindM::Keigakomi => NodeM::Keigakomi { children },
        KindM::Yokogumi => NodeM::Yokogumi { children },
        KindM::Caption => NodeM::Caption { children },
        KindM::AnnotationRuby(a) => NodeM::Ruby {
            children,
            ruby: seq![NodeM::Text(a)],
            direction: RubyDirection::Right,
        },
        KindM::SideNote(a) => {
            let count = spec_nodes_text(children).len() as int;
            NodeM::Ruby {
                children,
                ruby: seq![NodeM::Text(spec_repeat_join(a, if count > 1 { count } else { 1 }))],
                direction: RubyDirection::Right,
            }
        },
    }
}

/// The list after one reference is applied at its found place.
pub open spec fn spec_apply(acc: Seq<NodeM>, t: Seq<char>, f: FoundAt, kind: KindM) -> Seq<NodeM> {
    match f {
        FoundAt::Exact(i) => acc.update(i as int, spec_create(kind, seq![NodeM::Text(t)])),
        FoundAt::Split(i, pos) => {
            let tx = acc[i as int]->Text_0;
            let before = tx.subrange(0, pos as int);
            let after = tx.subrange(pos + t.len(), tx.len() as int);
            let seg = (if before.len() > 0 {
                seq![NodeM::Text(before)]
            } else {
                Seq::empty()
            }) + seq![spec_create(kind, seq![NodeM::Text(t)])] + (if after.len() > 0 {
                seq![NodeM::Text(after)]
            } else {
                Seq::empty()
            });
            acc.subrange(0, i as int) + seg + acc.subrange(i as int + 1, acc.len() as int)
        },
        FoundAt::Span(s, e) => acc.subrange(0, s as int) + seq![
            spec_create(kind, acc.subrange(s as int, e as int + 1)),
        ] + acc.subrange(e as int + 1, acc.len() as int),
    }
}

/// One pass resolving backward references left to right: a reference whose
/// target is found among the already-processed nodes rewrites them; one
/// whose target or specification cannot be resolved degrades to a note.
pub open spec fn spec_pass_refs(ns: Seq<NodeM>, acc: Seq<NodeM>) -> Seq<NodeM>
    decreases ns.len(),
{
    if ns.len() == 0 {
        acc
    } else {
        let h = ns.first();
        let rest = ns.drop_first();
        match h {
            NodeM::UnresolvedReference { target, spec_text, connector } => {
                let note = NodeM::Note(
                    "「"@ + target + "」"@ + connector + spec_text,
                );
                match spec_find_target(acc, target) {
                    Some(f) => match spec_kind_from(spec_text) {
                        Some(k) => spec_pass_refs(rest, spec_apply(acc, target, f, k)),
                        None => spec_pass_refs(rest, acc.push(note)),
                    },
                    None => spec_pass_refs(rest, acc.push(note)),
                }
            },
            _ => spec_pass_refs(rest, acc.push(h)),
        }
    }
}

/// Executable form of the constructor choice.
enum Kind {
    Style(StyleType),
    Midashi(MidashiLevel, MidashiStyle),
    FontSize(FontSizeType, u32),
    Tcy,
    Keigakomi,
    Yokogumi,
    Caption,
    AnnotationRuby(String),
    SideNote(String),
}

impl Kind {
    /// The model of this choice.
    pub closed spec fn model(self) -> KindM {
        match self {
            Kind::Style(st) => KindM::Style(st),
            Kind::Midashi(level, style) => KindM::Midashi { level, style },
            Kind::FontSize(ft, level) => KindM::FontSize { size_type: ft, level },
            Kind::Tcy => KindM::Tcy,
            Kind::Keigakomi => KindM::Keigakomi,
            Kind::Yokogumi => KindM::Yokogumi,
            Kind::Caption => KindM::Caption,
            Kind::AnnotationRuby(a) => KindM::AnnotationRuby(a@),
            Kind::SideNote(a) => KindM::SideNote(a@),
        }
    }
}

/// The constructor a specification names, if any.
fn kind_from(sp: &Vec<char>) -> (r: Option<Kind>)
    ensures
        match r {
            Some(k) => spec_kind_from(sp@) == Some(k.model()),
            None => spec_kind_from(sp@) is None,
        },
{
    let ar = str_to_chars("annotation_ruby:");
    if starts_with_pat(sp, &ar) {
        let rest = chars_subrange(sp, ar.len(), sp.len());
        return Some(Kind::AnnotationRuby(chars_to_string(&rest)));
    }
    let sn = str_to_chars("side_note:");
    if starts_with_pat(sp, &sn) {
        let rest = chars_subrange(sp, sn.len(), sp.len());
        return Some(Kind::SideNote(chars_to_string(&rest)));
    }
    let sp_str = chars_to_string(sp);
    if let Some(st) = StyleType::from_command(sp_str.as_str()) {
        return Some(Kind::Style(st));
    }
    if let Some(level) = MidashiLevel::from_command(sp_str.as_str()) {
        let style = MidashiStyle::from_command(sp_str.as_str());
        return Some(Kind::Midashi(level, style));
    }
    if let Some((ft, level)) = crate::node::FontSizeType::from_chars(sp) {
        return Some(Kind::FontSize(ft, level));
    }
    if eq_pat(sp, &str_to_chars("縦中横")) {
        return Some(Kind::Tcy);
    }
    if eq_pat(sp, &str_to_chars("罫囲み")) {
        return Some(Kind::Keigakomi);
    }
    if eq_pat(sp, &str_to_chars("横組み")) {
        return Some(Kind::Yokogumi);
    }
    if eq_pat(sp, &str_to_chars("キャプション")) {
        return Some(Kind::Caption);
    }
    None
}

/// The annotation text repeated `k` times, joined by no-break spaces.
fn repeat_join(a: &str, k: usize) -> (r: String)
    requires
        k >= 1,
    ensures
        r@ == spec_repeat_join(a@, k as int),
    decreases k,
{
    if k <= 1 {
        a.to_owned()
    } else {
        let mut r = repeat_join(a, k - 1);
        push_char(&mut r, '\u{00a0}');
        r.append(a);
        r
    }
}

/// Build the node a resolved reference stands for.
fn create_node(kind: Kind, children: Vec<Node>) -> (r: Node)
    ensures
        r.model() == spec_create(kind.model(), nodes_model(children@)),
{
    match kind {
        Kind::Style(st) => Node::Style {
            children,
            style_type: st,
            class_name: String::new(),
        },
        Kind::Midashi(level, style) => Node::Midashi { children, level, style },
        Kind::FontSize(ft, level) => Node::FontSize { children, size_type: ft, level },
        Kind::Tcy => Node::Tcy { children },
        Kind::Keigakomi => Node::Keigakomi { children },
        Kind::Yokogumi => Node::Yokogumi { children },
        Kind::Caption => Node::Caption { children },
        Kind::AnnotationRuby(a) => {
            let mut ruby: Vec<Node> = Vec::new();
            ruby.push(Node::Text(a));
            proof {
                assert(nodes_model(ruby@) =~= seq![NodeM::Text(ruby@[0]->Text_0@)]);
            }
            Node::Ruby { children, ruby, direction: RubyDirection::Right }
        },
        Kind::SideNote(a) => {
            let text = crate::node::nodes_text(&children);
            let count = text.as_str().unicode_len();
            let k = if count > 1 {
                count
            } else {
                1
            };
            let repeated = repeat_join(a.as_str(), k);
            let mut ruby: Vec<Node> = Vec::new();
            ruby.push(Node::Text(repeated));
            proof {
                assert(nodes_model(ruby@) =~= seq![NodeM::Text(ruby@[0]->Text_0@)]);
            }
            Node::Ruby { children, ruby, direction: RubyDirection::Right }
        },
    }
}

/// Search the already-processed nodes for the target text.
fn find_target_in_preceding(ns: &Vec<Node>, t: &Vec<char>) -> (r: Option<FoundAt>)
    ensures
        match r {
            Some(f) => spec_find_target(nodes_model(ns@), t@) == Some(f) && (match f {
                FoundAt::Exact(i) => i < ns@.len(),
                FoundAt::Split(i, pos) => i < ns@.len() && (nodes_model(ns@)[i as int] matches
                    NodeM::Text(tx) && pos + t@.len() <= tx.len()),
                FoundAt::Span(a, e) => a <= e && e < ns@.len(),
            }),
            None => spec_find_target(nodes_model(ns@), t@) is None,
        },
{
    let ghost m = nodes_model(ns@);
    let n = ns.len();
    // single nodes, from the end
    let mut i: usize = n;
    while i > 0
        invariant
            i <= n,
            n == ns@.len(),
            m == nodes_model(ns@),
            m.len() == n,
            spec_find_single(m, t@, n as int - 1) == spec_find_single(m, t@, i as int - 1),
        decreases i,
    {
        let node = &ns[i - 1];
        match node {
            Node::Text(tx) => {
                let txc = str_to_chars(tx.as_str());
                if eq_pat(&txc, t) {
                    return Some(FoundAt::Exact(i - 1));
                }
                let nt = txc.len();
                let rf = rfind_pat(&txc, t);
                proof {
                    lemma_spec_rfind_down(txc@, t@, txc@.len() - t@.len());
                }
                if let Some(pos) = rf {
                    return Some(FoundAt::Split(i - 1, pos));
                }
            },
            _ => {
                let wrapping: bool = match node {
                    Node::Style { .. } => true,
                    Node::FontSize { .. } => true,
                    Node::Tcy { .. } => true,
                    Node::Keigakomi { .. } => true,
                    Node::Yokogumi { .. } => true,
                    Node::Caption { .. } => true,
                    Node::Midashi { .. } => true,
                    _ => false,
                };
                if wrapping {
                    let pt = plain_text(node);
                    let ptc = str_to_chars(pt.as_str());
                    if eq_pat(&ptc, t) {
                        return Some(FoundAt::Span(i - 1, i - 1));
                    }
                }
            },
        }
        i -= 1;
    }
    // whole spans, ends from the right
    let mut end: usize = n;
    while end > 0
        invariant
            end <= n,
            n == ns@.len(),
            m == nodes_model(ns@),
            m.len() == n,
            spec_find_single(m, t@, n as int - 1) is None,
            spec_find_span(m, t@, n as int - 1) == spec_find_span(m, t@, end as int - 1),
        decreases end,
    {
        let mut combined = String::new();
        let mut start: usize = end;
        proof {
            assert(m.subrange(end as int, end as int) =~= Seq::<NodeM>::empty());
        }
        while start > 0
            invariant
                start <= end <= n,
                n == ns@.len(),
                m == nodes_model(ns@),
                m.len() == n,
                spec_find_single(m, t@, n as int - 1) is None,
                spec_find_span(m, t@, n as int - 1) == spec_find_span(m, t@, end as int - 1),
                combined@ == spec_plains(m.subrange(start as int, end as int)),
                spec_span_start(m, t@, end as int - 1, end as int - 1) == spec_span_start(
                    m,
                    t@,
                    end as int - 1,
                    start as int - 1,
                ),
            decreases start,
        {
            let piece = plain_text(&ns[start - 1]);
            let mut c2 = piece;
            c2.append(combined.as_str());
            combined = c2;
            proof {
                lemma_plains_split(m, start as int - 1, end as int);
            }
            start -= 1;
            let cc = str_to_chars(combined.as_str());
            if eq_pat(&cc, t) {
                return Some(FoundAt::Span(start, end - 1));
            }
        }
        proof {
            assert(spec_span_start(m, t@, end as int - 1, -1) == -1);
        }
        end -= 1;
    }
    None
}

proof fn lemma_plains_split(m: Seq<NodeM>, a: int, b: int)
    requires
        0 <= a < b <= m.len(),
    ensures
        spec_plains(m.subrange(a, b)) == spec_plain_text(m[a]) + spec_plains(
            m.subrange(a + 1, b),
        ),
    decreases b - a,
{
    if a + 1 == b {
        assert(m.subrange(a, b).drop_last() =~= m.subrange(a, a));
        assert(spec_plains(m.subrange(a, a)) == Seq::<char>::empty());
        assert(m.subrange(a + 1, b) =~= Seq::<NodeM>::empty());
        assert(Seq::<char>::empty() + spec_plain_text(m[a]) =~= spec_plain_text(m[a]));
        assert(spec_plain_text(m[a]) + Seq::<char>::empty() =~= spec_plain_text(m[a]));
    } else {
        lemma_plains_split(m, a, b - 1);
        assert(m.subrange(a, b).drop_last() =~= m.subrange(a, b - 1));
        assert(m.subrange(a, b).last() == m[b - 1]);
        assert(m.subrange(a + 1, b).drop_last() =~= m.subrange(a + 1, b - 1));
        assert(m.subrange(a + 1, b).last() == m[b - 1]);
        assert(spec_plain_text(m[a]) + (spec_plains(m.subrange(a + 1, b - 1)) + spec_plain_text(
            m[b - 1],
        )) =~= (spec_plain_text(m[a]) + spec_plains(m.subrange(a + 1, b - 1))) + spec_plain_text(
            m[b - 1],
        ));
    }
}

/// Resolve every backward reference against the nodes before it.
pub fn resolve_style_references(nodes: &mut Vec<Node>)
    ensures
        nodes_model(final(nodes)@) == spec_pass_refs(nodes_model(old(nodes)@), Seq::empty()),
{
    let ghost m = nodes_model(old(nodes)@);
    let ghost total = spec_pass_refs(m, Seq::empty());
    proof {
        assert(m.subrange(0, m.len() as int) =~= m);
    }
    let n = nodes.len();
    let mut acc: Vec<Node> = Vec::new();
    let mut i: usize = 0;
    while i < n
        invariant
            i <= n,
            n == nodes@.len(),
            m == nodes_model(nodes@),
            m.len() == n,
            total == spec_pass_refs(m.subrange(i as int, n as int), nodes_model(acc@)),
        decreases n - i,
    {
        let ghost suffix = m.subrange(i as int, n as int);
        let ghost accm = nodes_model(acc@);
        proof {
            assert(suffix.first() == m[i as int]);
            assert(suffix.drop_first() =~= m.subrange(i as int + 1, n as int));
        }
        let h = nodes[i].clone();
        if let Node::UnresolvedReference { target, spec_text, connector } = h {
            let tc = str_to_chars(target.as_str());
            let sc = str_to_chars(spec_text.as_str());
            let found = find_target_in_preceding(&acc, &tc);
            let kind = kind_from(&sc);
            match (found, kind) {
                (Some(f), Some(k)) => {
                    let new_acc = apply_found(acc, &tc, f, k);
                    acc = new_acc;
                },
                _ => {
                    let mut note = String::from_str("「");
                    note.append(target.as_str());
                    note.append("」");
                    note.append(connector.as_str());
                    note.append(spec_text.as_str());
                    acc.push(Node::Note(note));
                    proof {
                        assert(nodes_model(acc@) =~= accm.push(NodeM::Note(
                            "「"@ + target@ + "」"@ + connector@ + spec_text@,
                        )));
                    }
                },
            }
        } else {
            acc.push(h);
            proof {
                assert(nodes_model(acc@) =~= accm.push(m[i as int]));
            }
        }
        i += 1;
    }
    proof {
        assert(m.subrange(n as int, n as int) =~= Seq::<NodeM>::empty());
    }
    *nodes = acc;
}

/// Rewrite the processed nodes around one found target.
#[verifier::rlimit(100)]
fn apply_found(acc: Vec<Node>, t: &Vec<char>, f: FoundAt, kind: Kind) -> (r: Vec<Node>)
    requires
        match f {
            FoundAt::Exact(i) => i < acc@.len(),
            FoundAt::Split(i, pos) => i < acc@.len() && (nodes_model(acc@)[i as int] matches
                NodeM::Text(tx) && pos + t@.len() <= tx.len()),
            FoundAt::Span(s, e) => s <= e && e < acc@.len(),
        },
    ensures
        nodes_model(r@) == spec_apply(nodes_model(acc@), t@, f, kind.model()),
{
    let ghost m = nodes_model(acc@);
    let n = acc.len();
    match f {
        FoundAt::Exact(i) => {
            let mut children: Vec<Node> = Vec::new();
            children.push(Node::Text(chars_to_string(t)));
            proof {
                assert(nodes_model(children@) =~= seq![NodeM::Text(t@)]);
            }
            let node = create_node(kind, children);
            let ghost nodem = node.model();
            let mut r = clone_range(&acc, 0, i);
            let ghost s1 = nodes_model(r@);
            r.push(node);
            proof {
                assert(nodes_model(r@).drop_last() =~= s1);
                assert(nodes_model(r@) =~= m.subrange(0, i as int).push(nodem));
            }
            append_range(&mut r, &acc, i + 1, n);
            proof {
                assert(nodes_model(r@) =~= m.update(
                    i as int,
                    spec_create(kind.model(), seq![NodeM::Text(t@)]),
                ));
            }
            r
        },
        FoundAt::Split(i, pos) => {
            let tx: String = match &acc[i] {
                Node::Text(s) => s.clone(),
                _ => String::new(),
            };
            proof {
                assert(m[i as int] == acc@[i as int].model());
            }
            let txc = str_to_chars(tx.as_str());
            let ntx = txc.len();
            let before = chars_subrange(&txc, 0, pos);
            let after = chars_subrange(&txc, pos + t.len(), ntx);
            let mut children: Vec<Node> = Vec::new();
            children.push(Node::Text(chars_to_string(t)));
            proof {
                assert(nodes_model(children@) =~= seq![NodeM::Text(t@)]);
            }
            let node = create_node(kind, children);
            let ghost nodem = node.model();
            let mut r = clone_range(&acc, 0, i);
            let ghost s0 = nodes_model(r@);
            if before.len() > 0 {
                let ghost sp = nodes_model(r@);
                r.push(Node::Text(chars_to_string(&before)));
                proof {
                    assert(nodes_model(r@).drop_last() =~= sp);
                    assert(nodes_model(r@) =~= sp.push(NodeM::Text(before@)));
                }
            }
            let ghost s1 = nodes_model(r@);
            r.push(node);
            proof {
                assert(nodes_model(r@).drop_last() =~= s1);
                assert(nodes_model(r@) =~= s1.push(nodem));
            }
            if after.len() > 0 {
                let ghost s2 = nodes_model(r@);
                r.push(Node::Text(chars_to_string(&after)));
                proof {
                    assert(nodes_model(r@).drop_last() =~= s2);
                    assert(nodes_model(r@) =~= s2.push(NodeM::Text(after@)));
                }
            }
            append_range(&mut r, &acc, i + 1, n);
            proof {
                assert(nodes_model(r@) =~= spec_apply(m, t@, f, kind.model()));
            }
            r
        },
        FoundAt::Span(s, e) => {
            let children = clone_range(&acc, s, e + 1);
            let node = create_node(kind, children);
            let ghost nodem = node.model();
            let mut r = clone_range(&acc, 0, s);
            let ghost s1 = nodes_model(r@);
            r.push(node);
            proof {
                assert(nodes_model(r@).drop_last() =~= s1);
                assert(nodes_model(r@) =~= m.subrange(0, s as int).push(nodem));
            }
            append_range(&mut r, &acc, e + 1, n);
            proof {
                assert(nodes_model(r@) =~= spec_apply(m, t@, f, kind.model()));
            }
            r
        },
    }
}

// ---------------------------------------------------------------------
// the resolver and its law
// ---------------------------------------------------------------------

/// The resolved form of a node list: ruby bases attached, annotation pairs
/// collapsed, backward references rewritten, in that order.
pub open spec fn spec_resolve(ns: Seq<NodeM>) -> Seq<NodeM> {
    spec_pass_refs(
        spec_pass_annot(spec_pass_ruby(ns, Seq::empty()), Seq::empty()),
        Seq::empty(),
    )
}

/// Resolve a node list: ruby bases, annotation ranges, then backward
/// references.
pub fn resolve_references(nodes: &mut Vec<Node>)
    ensures
        nodes_model(final(nodes)@) == spec_resolve(nodes_model(old(nodes)@)),
{
    resolve_inline_ruby(nodes);
    resolve_annotation_ranges(nodes);
    resolve_style_references(nodes);
}

/// A list on which resolution has nothing left to do: no gloss-only ruby
/// with an extractable base before it, no matched annotation pair carrying
/// an annotation, and no unresolved reference.
pub open spec fn is_resolved(ns: Seq<NodeM>) -> bool {
    &&& forall|i: int| 0 <= i < ns.len() ==> !((#[trigger] ns[i]) matches
        NodeM::UnresolvedReference { .. })
    &&& forall|i: int| 0 <= i < ns.len() ==> ((#[trigger] ns[i]) matches NodeM::Ruby {
        children,
        ruby,
        ..
    } && children.len() == 0 && ruby.len() > 0 ==> spec_extract_base_nodes(
        ns.subrange(0, i),
    ) is None)
    &&& forall|i: int| 0 <= i < ns.len() ==> (is_annot_start(#[trigger] ns[i]) ==> ({
        let rest = ns.subrange(i + 1, ns.len() as int);
        let j = find_annot_end(rest, annot_start_left(ns[i]), 0);
        j < 0 || annot_of(rest[j]) is None
    }))
}

proof fn lemma_pass_ruby_id(ns: Seq<NodeM>, i: int)
    requires
        0 <= i <= ns.len(),
        is_resolved(ns),
    ensures
        spec_pass_ruby(ns.subrange(i, ns.len() as int), ns.subrange(0, i)) == ns,
    decreases ns.len() - i,
{
    let suffix = ns.subrange(i, ns.len() as int);
    let acc = ns.subrange(0, i);
    if i == ns.len() {
        assert(suffix.len() == 0);
        assert(acc =~= ns);
    } else {
        assert(suffix.first() == ns[i]);
        assert(suffix.drop_first() =~= ns.subrange(i + 1, ns.len() as int));
        assert(acc.push(ns[i]) =~= ns.subrange(0, i + 1));
        lemma_pass_ruby_id(ns, i + 1);
    }
}

#[verifier::rlimit(100)]
proof fn lemma_pass_annot_id(ns: Seq<NodeM>, i: int)
    requires
        0 <= i <= ns.len(),
        is_resolved(ns),
    ensures
        spec_pass_annot(ns.subrange(i, ns.len() as int), ns.subrange(0, i)) == ns,
    decreases ns.len() - i,
{
    let suffix = ns.subrange(i, ns.len() as int);
    let acc = ns.subrange(0, i);
    lemma_count_starts_nonneg(suffix);
    lemma_count_starts_nonneg(suffix.drop_first());
    if i == ns.len() {
        assert(suffix.len() == 0);
        assert(acc =~= ns);
    } else {
        assert(suffix.first() == ns[i]);
        assert(suffix.drop_first() =~= ns.subrange(i + 1, ns.len() as int));
        assert(acc.push(ns[i]) =~= ns.subrange(0, i + 1));
        if is_annot_start(ns[i]) {
            let rest = ns.subrange(i + 1, ns.len() as int);
            let j = find_annot_end(rest, annot_start_left(ns[i]), 0);
            assert(j < 0 || annot_of(rest[j]) is None);
        }
        assert(spec_pass_annot(suffix, acc) == spec_pass_annot(
            suffix.drop_first(),
            acc.push(ns[i]),
        ));
        lemma_pass_annot_id(ns, i + 1);
    }
}

proof fn lemma_pass_refs_id(ns: Seq<NodeM>, i: int)
    requires
        0 <= i <= ns.len(),
        is_resolved(ns),
    ensures
        spec_pass_refs(ns.subrange(i, ns.len() as int), ns.subrange(0, i)) == ns,
    decreases ns.len() - i,
{
    let suffix = ns.subrange(i, ns.len() as int);
    let acc = ns.subrange(0, i);
    if i == ns.len() {
        assert(suffix.len() == 0);
        assert(acc =~= ns);
    } else {
        assert(suffix.first() == ns[i]);
        assert(suffix.drop_first() =~= ns.subrange(i + 1, ns.len() as int));
        assert(acc.push(ns[i]) =~= ns.subrange(0, i + 1));
        lemma_pass_refs_id(ns, i + 1);
    }
}

/// The resolver is idempotent: a list on which resolution has nothing left
/// to do — one already resolved — is returned unchanged, so resolving twice
/// is the same as resolving once.
pub proof fn lemma_resolver_idempotent(ns: Seq<NodeM>)
    requires
        is_resolved(ns),
    ensures
        spec_resolve(ns) == ns,
{
    assert(ns.subrange(0, ns.len() as int) =~= ns);
    assert(ns.subrange(0, 0) =~= Seq::<NodeM>::empty());
    lemma_pass_ruby_id(ns, 0);
    lemma_pass_annot_id(ns, 0);
    lemma_pass_refs_id(ns, 0);
}

} // verus!
