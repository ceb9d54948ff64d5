//! Flow-behaviour classification and the assembly contract.

use stylecore::flow::{surviving_weak, trailing_empty_lines};
use stylecore::nodes::unlabellable;
use stylecore::{Behaviour, Element, LinebreakNode, SpaceNode};

#[test]
fn space_is_weak_priority_two() {
    assert_eq!(SpaceNode.behaviour(), Behaviour::Weak(2));
}

#[test]
fn linebreak_is_destructive() {
    let l = LinebreakNode { justify: false };
    assert_eq!(l.behaviour(), Behaviour::Destructive);
}

#[test]
fn single_trailing_break_is_absorbed() {
    let run = vec![
        Behaviour::Weak(2),
        SpaceNode.behaviour(),
        LinebreakNode { justify: false }.behaviour(),
    ];
    assert_eq!(trailing_empty_lines(&run), 0);
}

#[test]
fn two_trailing_breaks_make_one_empty_line() {
    let run = vec![
        Behaviour::Weak(2),
        Behaviour::Destructive,
        Behaviour::Destructive,
    ];
    assert_eq!(trailing_empty_lines(&run), 1);
}

#[test]
fn non_trailing_breaks_make_no_empty_line() {
    let run = vec![
        Behaviour::Destructive,
        Behaviour::Destructive,
        Behaviour::Weak(2),
    ];
    assert_eq!(trailing_empty_lines(&run), 0);
}

#[test]
fn every_further_trailing_break_counts() {
    let run = vec![
        Behaviour::Weak(2),
        Behaviour::Destructive,
        Behaviour::Destructive,
        Behaviour::Destructive,
    ];
    assert_eq!(trailing_empty_lines(&run), 2);
}

#[test]
fn empty_run_has_no_empty_lines() {
    let run: Vec<Behaviour> = vec![];
    assert_eq!(trailing_empty_lines(&run), 0);
}

#[test]
fn highest_priority_weak_survives() {
    let prios = vec![2usize, 5, 3];
    assert_eq!(surviving_weak(&prios), Some(1));
}

#[test]
fn equal_priority_last_wins() {
    let prios = vec![2usize, 3, 3];
    assert_eq!(surviving_weak(&prios), Some(2));
}

#[test]
fn no_weak_elements_no_survivor() {
    let prios: Vec<usize> = vec![];
    assert_eq!(surviving_weak(&prios), None);
}

#[test]
fn content_level_classification() {
    let space = SpaceNode.pack();
    let brk = LinebreakNode { justify: false }.pack();
    let text = stylecore::TextNode("words".to_owned()).pack();
    assert_eq!(space.behaviour(), Some(Behaviour::Weak(2)));
    assert_eq!(brk.behaviour(), Some(Behaviour::Destructive));
    assert_eq!(text.behaviour(), None);
}

#[test]
fn classified_run_absorbs_single_trailing_break() {
    let contents = vec![
        SpaceNode.pack(),
        LinebreakNode { justify: false }.pack(),
    ];
    let mut run: Vec<Behaviour> = Vec::new();
    for c in &contents {
        if let Some(b) = c.behaviour() {
            run.push(b);
        }
    }
    assert_eq!(trailing_empty_lines(&run), 0);
}

#[test]
fn only_space_is_unlabellable() {
    assert!(unlabellable(&Element::Space(SpaceNode)));
    assert!(!unlabellable(&Element::Linebreak(LinebreakNode {
        justify: false
    })));
}
