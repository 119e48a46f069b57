//! Tests carried over for this module.

use aozora_core::node::{Node, RubyDirection};
use aozora_core::parser::reference_resolver::resolve_inline_ruby;

#[test]
fn test_resolve_inline_ruby() {
    let mut nodes = vec![
        Node::text("私の東京"),
        Node::Ruby {
            children: vec![],
            ruby: vec![Node::text("とうきょう")],
            direction: RubyDirection::Right,
        },
    ];

    resolve_inline_ruby(&mut nodes);

    assert_eq!(nodes.len(), 2);
    assert!(matches!(&nodes[0], Node::Text(s) if s == "私の"));
    if let Node::Ruby { children, ruby, .. } = &nodes[1] {
        assert!(matches!(&children[0], Node::Text(s) if s == "東京"));
        assert!(matches!(&ruby[0], Node::Text(s) if s == "とうきょう"));
    } else {
        panic!("Expected Ruby node");
    }
}

#[test]
fn test_resolve_inline_ruby_full_match() {
    let mut nodes = vec![
        Node::text("東京"),
        Node::Ruby {
            children: vec![],
            ruby: vec![Node::text("とうきょう")],
            direction: RubyDirection::Right,
        },
    ];

    resolve_inline_ruby(&mut nodes);

    assert_eq!(nodes.len(), 1);
    if let Node::Ruby { children, ruby, .. } = &nodes[0] {
        assert!(matches!(&children[0], Node::Text(s) if s == "東京"));
        assert!(matches!(&ruby[0], Node::Text(s) if s == "とうきょう"));
    } else {
        panic!("Expected Ruby node");
    }
}
