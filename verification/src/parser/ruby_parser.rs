//! Ruby-base extraction: the maximal trailing run of characters of one
//! class, walked backwards over text and over node lists.

use vstd::prelude::*;

use crate::char_type::{spec_classify, CharType};
use crate::node::{clone_nodes, lemma_nodes_model, nodes_model, spec_last_char_type, Node, NodeM};
use crate::strutil::{chars_range_to_string, str_to_chars};

verus! {

/// Start of the maximal run of characters of class `ct` ending at `i`.
pub open spec fn spec_run_start(s: Seq<char>, ct: CharType, i: int) -> int
    decreases i,
    when i <= s.len()
{
    if i > 0 && spec_classify(s[i - 1]) == ct {
        spec_run_start(s, ct, i - 1)
    } else {
        i
    }
}

proof fn lemma_run_start(s: Seq<char>, ct: CharType, i: int)
    requires
        0 <= i <= s.len(),
    ensures
        0 <= spec_run_start(s, ct, i) <= i,
    decreases i,
{
    if i > 0 && spec_classify(s[i - 1]) == ct {
        lemma_run_start(s, ct, i - 1);
    }
}

/// The trailing run of one class at the end of the text: the text before
/// the run, the run itself, and its class. Nothing when the text is empty
/// or its last character is of the catch-all class.
pub open spec fn spec_extract_ruby_base(s: Seq<char>) -> Option<(Seq<char>, Seq<char>, CharType)> {
    if s.len() == 0 {
        None
    } else {
        let ct = spec_classify(s.last());
        if ct == CharType::Else {
            None
        } else {
            let b = spec_run_start(s, ct, s.len() as int);
            Some((s.subrange(0, b), s.subrange(b, s.len() as int), ct))
        }
    }
}

/// Result of extracting a ruby base from text.
#[derive(Debug, Clone, PartialEq)]
pub struct RubyBaseResult {
    /// The extracted base: the trailing run.
    pub base: String,
    /// The text before the run.
    pub remaining: String,
    /// The class of the run.
    pub char_type: CharType,
}

/// Extract the trailing same-class run of the text as a ruby base.
pub fn extract_ruby_base(text: &str) -> (r: Option<RubyBaseResult>)
    ensures
        match r {
            Some(b) => spec_extract_ruby_base(text@) == Some((b.remaining@, b.base@, b.char_type)),
            None => spec_extract_ruby_base(text@) is None,
        },
{
    let chars = str_to_chars(text);
    extract_ruby_base_chars(&chars)
}

/// Extract the trailing same-class run, from text held as characters.
pub fn extract_ruby_base_chars(chars: &Vec<char>) -> (r: Option<RubyBaseResult>)
    ensures
        match r {
            Some(b) => spec_extract_ruby_base(chars@) == Some(
                (b.remaining@, b.base@, b.char_type),
            ),
            None => spec_extract_ruby_base(chars@) is None,
        },
{
    let n = chars.len();
    if n == 0 {
        return None;
    }
    let ct = CharType::classify(chars[n - 1]);
    if matches!(ct, CharType::Else) {
        return None;
    }
    let mut b: usize = n;
    while b > 0 && matches!(CharType::classify(chars[b - 1]), t if t == ct)
        invariant
            0 <= b <= n,
            n == chars@.len(),
            spec_run_start(chars@, ct, n as int) == spec_run_start(chars@, ct, b as int),
        decreases b,
    {
        b -= 1;
    }
    let remaining = chars_range_to_string(chars, 0, b);
    let base = chars_range_to_string(chars, b, n);
    Some(RubyBaseResult { base, remaining, char_type: ct })
}

/// Walk the node list backwards, collecting nodes whose trailing text keeps
/// the class `ct`: the nodes before the collected run, and the run.
pub open spec fn spec_scan_base(ns: Seq<NodeM>, ct: CharType) -> (Seq<NodeM>, Seq<NodeM>)
    decreases ns.len(),
{
    if ns.len() == 0 {
        (Seq::empty(), Seq::empty())
    } else {
        match ns.last() {
            NodeM::Text(t) => {
                if t.len() > 0 && spec_classify(t.last()) == ct {
                    let b = spec_run_start(t, ct, t.len() as int);
                    if b > 0 {
                        (ns.drop_last().push(NodeM::Text(t.subrange(0, b))), seq![
                            NodeM::Text(t.subrange(b, t.len() as int)),
                        ])
                    } else {
                        let rb = spec_scan_base(ns.drop_last(), ct);
                        (rb.0, rb.1.push(NodeM::Text(t)))
                    }
                } else {
                    (ns, Seq::empty())
                }
            },
            NodeM::Gaiji { .. } => {
                if ct == CharType::Kanji {
                    let rb = spec_scan_base(ns.drop_last(), ct);
                    (rb.0, rb.1.push(ns.last()))
                } else {
                    (ns, Seq::empty())
                }
            },
            NodeM::DakutenKatakana { .. } => {
                if ct == CharType::Katakana {
                    let rb = spec_scan_base(ns.drop_last(), ct);
                    (rb.0, rb.1.push(ns.last()))
                } else {
                    (ns, Seq::empty())
                }
            },
            _ => (ns, Seq::empty()),
        }
    }
}

/// The ruby base at the end of a node list: the class comes from the last
/// node, the run is collected backwards, and an empty run is no base.
pub open spec fn spec_extract_base_nodes(ns: Seq<NodeM>) -> Option<(Seq<NodeM>, Seq<NodeM>)> {
    if ns.len() == 0 {
        None
    } else {
        match spec_last_char_type(ns.last()) {
            None => None,
            Some(ct) => {
                if ct == CharType::Else {
                    None
                } else {
                    let rb = spec_scan_base(ns, ct);
                    if rb.1.len() == 0 {
                        None
                    } else {
                        Some(rb)
                    }
                }
            },
        }
    }
}

/// Extract the ruby base from the end of a node list: the remaining nodes
/// and the base run.
pub fn extract_ruby_base_from_nodes(nodes: &Vec<Node>) -> (r: Option<(Vec<Node>, Vec<Node>)>)
    ensures
        match r {
            Some(p) => spec_extract_base_nodes(nodes_model(nodes@)) == Some(
                (nodes_model(p.0@), nodes_model(p.1@)),
            ),
            None => spec_extract_base_nodes(nodes_model(nodes@)) is None,
        },
{
    let ghost m = nodes_model(nodes@);
    proof {
        lemma_nodes_model(nodes@);
    }
    let n = nodes.len();
    if n == 0 {
        return None;
    }
    let ct = match nodes[n - 1].last_char_type() {
        Some(t) => t,
        None => {
            return None;
        },
    };
    if matches!(ct, CharType::Else) {
        return None;
    }
    let mut k: usize = n;
    let ghost total = spec_scan_base(m, ct);
    proof {
        assert(m.subrange(0, n as int) =~= m);
        assert(m.subrange(n as int, n as int) =~= Seq::<NodeM>::empty());
        assert(spec_scan_base(m.subrange(0, n as int), ct).1 + m.subrange(n as int, n as int)
            =~= total.1);
    }
    while k > 0
        invariant
            0 <= k <= n,
            1 <= n == nodes@.len(),
            m == nodes_model(nodes@),
            m.len() == n,
            ct != CharType::Else,
            spec_last_char_type(m[n as int - 1]) == Some(ct),
            total == spec_scan_base(m, ct),
            total.0 == spec_scan_base(m.subrange(0, k as int), ct).0,
            total.1 == spec_scan_base(m.subrange(0, k as int), ct).1 + m.subrange(
                k as int,
                n as int,
            ),
        decreases k,
    {
        let ghost mk = m.subrange(0, k as int);
        proof {
            lemma_nodes_model(nodes@);
            assert(mk.last() == m[k as int - 1]);
            assert(mk.drop_last() =~= m.subrange(0, k as int - 1));
            assert(m[k as int - 1] == nodes@[k as int - 1].model());
        }
        let stop: bool;
        match &nodes[k - 1] {
            Node::Text(t) => {
                let chars = str_to_chars(t.as_str());
                let tn = chars.len();
                if tn > 0 && CharType::classify(chars[tn - 1]) == ct {
                    let mut b: usize = tn;
                    while b > 0 && CharType::classify(chars[b - 1]) == ct
                        invariant
                            0 <= b <= tn,
                            tn == chars@.len(),
                            spec_run_start(chars@, ct, tn as int) == spec_run_start(
                                chars@,
                                ct,
                                b as int,
                            ),
                        decreases b,
                    {
                        b -= 1;
                    }
                    if b > 0 {
                        // the run starts inside this text node: split it
                        let prefix = chars_range_to_string(&chars, 0, b);
                        let suffix = chars_range_to_string(&chars, b, tn);
                        let mut remaining = clone_first(nodes, k - 1);
                        remaining.push(Node::Text(prefix));
                        let mut base: Vec<Node> = Vec::new();
                        base.push(Node::Text(suffix));
                        append_clones(&mut base, nodes, k, n);
                        proof {
                            lemma_nodes_model(remaining@);
                            lemma_nodes_model(base@);
                            assert(nodes_model(remaining@) =~= m.subrange(0, k as int - 1).push(
                                NodeM::Text(chars@.subrange(0, b as int)),
                            ));
                            assert(nodes_model(base@) =~= seq![
                                NodeM::Text(chars@.subrange(b as int, tn as int)),
                            ] + m.subrange(k as int, n as int));
                            assert(total.0 == nodes_model(remaining@));
                            assert(total.1 =~= nodes_model(base@));
                            assert(total.1.len() > 0);
                        }
                        return Some((remaining, base));
                    }
                    stop = false;
                } else {
                    stop = true;
                }
            },
            Node::Gaiji { .. } => {
                stop = !matches!(ct, CharType::Kanji);
            },
            Node::DakutenKatakana { .. } => {
                stop = !matches!(ct, CharType::Katakana);
            },
            _ => {
                stop = true;
            },
        }
        if stop {
            proof {
                assert(spec_scan_base(mk, ct) == (mk, Seq::<NodeM>::empty()));
                assert(total.0 == mk);
                assert(total.1 =~= m.subrange(k as int, n as int));
            }
            if k == n {
                proof {
                    assert(m.subrange(n as int, n as int) =~= Seq::<NodeM>::empty());
                    assert(total.1.len() == 0);
                }
                return None;
            }
            let remaining = clone_first(nodes, k);
            let mut base: Vec<Node> = Vec::new();
            append_clones(&mut base, nodes, k, n);
            proof {
                lemma_nodes_model(remaining@);
                lemma_nodes_model(base@);
                assert(nodes_model(remaining@) =~= m.subrange(0, k as int));
                assert(nodes_model(base@) =~= m.subrange(k as int, n as int));
                assert(total.0 =~= nodes_model(remaining@));
                assert(total.1 =~= nodes_model(base@));
                assert(total.1.len() > 0);
            }
            return Some((remaining, base));
        }
        k -= 1;
        proof {
            assert(m.subrange(0, k as int) =~= mk.drop_last());
            assert(total.1 =~= spec_scan_base(m.subrange(0, k as int), ct).1 + m.subrange(
                k as int,
                n as int,
            ));
        }
    }
    // every node joined the base
    let remaining: Vec<Node> = Vec::new();
    let mut base: Vec<Node> = Vec::new();
    append_clones(&mut base, nodes, 0, n);
    proof {
        lemma_nodes_model(remaining@);
        lemma_nodes_model(base@);
        assert(m.subrange(0, 0) =~= Seq::<NodeM>::empty());
        assert(nodes_model(remaining@) =~= Seq::<NodeM>::empty());
        assert(nodes_model(base@) =~= m.subrange(0, n as int));
        assert(total.0 =~= nodes_model(remaining@));
        assert(total.1 =~= nodes_model(base@));
        assert(total.1.len() > 0);
    }
    Some((remaining, base))
}

/// Clones of the first `k` nodes.
fn clone_first(nodes: &Vec<Node>, k: usize) -> (r: Vec<Node>)
    requires
        k <= nodes@.len(),
    ensures
        r@.len() == k,
        forall|j: int| 0 <= j < k ==> r@[j].model() == nodes@[j].model(),
{
    let mut r: Vec<Node> = Vec::new();
    let mut i: usize = 0;
    while i < k
        invariant
            i <= k <= nodes@.len(),
            r@.len() == i,
            forall|j: int| 0 <= j < i ==> r@[j].model() == nodes@[j].model(),
        decreases k - i,
    {
        r.push(nodes[i].clone());
        i += 1;
    }
    r
}

/// Append clones of the nodes in `[from, to)`.
fn append_clones(out: &mut Vec<Node>, nodes: &Vec<Node>, from: usize, to: usize)
    requires
        from <= to <= nodes@.len(),
    ensures
        final(out)@.len() == old(out)@.len() + (to - from),
        forall|i: int| 0 <= i < old(out)@.len() ==> #[trigger] final(out)@[i] == old(out)@[i],
        forall|i: int| old(out)@.len() <= i < final(out)@.len()
            ==> (#[trigger] final(out)@[i]).model() == nodes@[from + i - old(out)@.len()].model(),
{
    let mut i: usize = from;
    while i < to
        invariant
            from <= i <= to <= nodes@.len(),
            out@.len() == old(out)@.len() + (i - from),
            forall|j: int| 0 <= j < old(out)@.len() ==> #[trigger] out@[j] == old(out)@[j],
            forall|j: int| old(out)@.len() <= j < out@.len()
                ==> (#[trigger] out@[j]).model() == nodes@[from + j - old(out)@.len()].model(),
        decreases to - i,
    {
        out.push(nodes[i].clone());
        i += 1;
    }
}

} // verus!
