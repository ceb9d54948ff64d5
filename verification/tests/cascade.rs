//! Cascade resolution: fold and override disciplines.

use stylecore::{
    Args, Case, Content, Delta, Element, StyleChain, StyleEntry, StrongNode, TextNode, Toggle,
    Value,
};

fn text_body(s: &str) -> Content {
    TextNode(s.to_owned()).pack()
}

#[test]
fn delta_fold_adds() {
    assert_eq!(Delta(5).fold(10), 15);
    assert_eq!(Delta(-3).fold(10), 7);
}

#[test]
fn toggle_fold_negates() {
    assert!(Toggle.fold(false));
    assert!(!Toggle.fold(true));
}

#[test]
fn empty_chain_resolves_base_defaults() {
    let chain = StyleChain::new();
    assert_eq!(chain.get_delta(), 0);
    assert!(!chain.get_italic());
    assert!(chain.get_case().is_none());
    assert!(!chain.get_smallcaps());
    assert_eq!(chain.get_strong_delta(), 300);
}

#[test]
fn delta_assignments_sum() {
    let mut chain = StyleChain::new();
    chain.push(StyleEntry::FontDelta(Delta(100)));
    chain.push(StyleEntry::Italic(Toggle));
    chain.push(StyleEntry::FontDelta(Delta(200)));
    assert_eq!(chain.get_delta(), 300);
}

#[test]
fn toggle_resolution_follows_parity() {
    let mut chain = StyleChain::new();
    assert!(!chain.get_italic());
    chain.push(StyleEntry::Italic(Toggle));
    assert!(chain.get_italic());
    chain.push(StyleEntry::Italic(Toggle));
    assert!(!chain.get_italic());
    chain.push(StyleEntry::Italic(Toggle));
    assert!(chain.get_italic());
}

#[test]
fn override_innermost_wins() {
    let mut chain = StyleChain::new();
    chain.push(StyleEntry::CaseTransform(Some(Case::Upper)));
    chain.push(StyleEntry::Smallcaps(false));
    chain.push(StyleEntry::StrongDelta(100));
    chain.push(StyleEntry::CaseTransform(Some(Case::Lower)));
    chain.push(StyleEntry::Smallcaps(true));
    chain.push(StyleEntry::StrongDelta(0));
    assert!(matches!(chain.get_case(), Some(Case::Lower)));
    assert!(chain.get_smallcaps());
    assert_eq!(chain.get_strong_delta(), 0);
}

#[test]
fn nested_strong_resolves_to_600() {
    let mut inner_args = Args::new(0);
    inner_args.push_positional(Value::Content(text_body("deep")), 1);
    let inner = StrongNode::construct(&inner_args).unwrap();

    let mut outer_args = Args::new(0);
    outer_args.push_positional(Value::Content(inner), 2);
    let outer = StrongNode::construct(&outer_args).unwrap();

    let root = StyleChain::new();
    let outer_node = match outer.elem {
        Element::Strong(n) => n,
        other => panic!("expected strong emphasis, got {:?}", other),
    };
    let rewritten = outer_node.show(&root);
    let chain_at_inner = root.enter(&rewritten);
    let inner_node = match rewritten.elem {
        Element::Strong(n) => n,
        other => panic!("expected strong emphasis, got {:?}", other),
    };
    let body = inner_node.show(&chain_at_inner);
    let chain_at_text = chain_at_inner.enter(&body);
    assert_eq!(chain_at_text.get_delta(), 600);
}

#[test]
fn strong_delta_setting_changes_show() {
    let strong = StrongNode(Box::new(text_body("x")));
    let mut chain = StyleChain::new();
    chain.push(StyleEntry::StrongDelta(0));
    let rewritten = strong.show(&chain);
    assert_eq!(rewritten.styles.len(), 1);
    assert!(matches!(
        rewritten.styles[0],
        StyleEntry::FontDelta(Delta(0))
    ));
}

#[test]
fn nested_emph_toggles_back() {
    let inner = stylecore::EmphNode(Box::new(text_body("x"))).pack();
    let outer = stylecore::EmphNode(Box::new(inner));
    let root = StyleChain::new();
    let rewritten_outer = outer.show(&root);
    let chain_at_inner = root.enter(&rewritten_outer);
    assert!(chain_at_inner.get_italic());
    let inner_node = match rewritten_outer.elem {
        Element::Emph(n) => n,
        other => panic!("expected emphasis, got {:?}", other),
    };
    let rewritten_inner = inner_node.show(&chain_at_inner);
    let chain_at_text = chain_at_inner.enter(&rewritten_inner);
    assert!(!chain_at_text.get_italic());
}

#[test]
fn styled_pushes_innermost_scope() {
    let c = text_body("t")
        .styled(StyleEntry::FontDelta(Delta(1)))
        .styled(StyleEntry::Smallcaps(true));
    assert_eq!(c.styles.len(), 2);
    assert!(matches!(c.styles[0], StyleEntry::FontDelta(Delta(1))));
    assert!(matches!(c.styles[1], StyleEntry::Smallcaps(true)));
}
