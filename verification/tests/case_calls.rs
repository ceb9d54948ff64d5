//! Case-change calls, small capitals, and value coercion.

use stylecore::value::{coerce_bool, coerce_content, coerce_delta};
use stylecore::{
    lower, smallcaps, upper, Args, Case, Content, Delta, Element, SourceError, StyleEntry,
    TextNode, Value,
};

fn text_body(s: &str) -> Content {
    TextNode(s.to_owned()).pack()
}

#[test]
fn lower_on_string() {
    let mut args = Args::new(0);
    args.push_positional(Value::Str("ABC".to_owned()), 1);
    match lower(&args) {
        Ok(Value::Str(s)) => assert_eq!(s, "abc"),
        other => panic!("expected a string, got {:?}", other),
    }
}

#[test]
fn upper_on_string() {
    let mut args = Args::new(0);
    args.push_positional(Value::Str("abc".to_owned()), 1);
    match upper(&args) {
        Ok(Value::Str(s)) => assert_eq!(s, "ABC"),
        other => panic!("expected a string, got {:?}", other),
    }
}

#[test]
fn lower_on_content_wraps_in_scope() {
    let mut args = Args::new(0);
    args.push_positional(Value::Content(text_body("My Text")), 1);
    match lower(&args) {
        Ok(Value::Content(c)) => {
            match &c.elem {
                Element::Text(t) => assert_eq!(t.0, "My Text"),
                other => panic!("expected the body unchanged, got {:?}", other),
            }
            assert_eq!(c.styles.len(), 1);
            assert!(matches!(
                c.styles[0],
                StyleEntry::CaseTransform(Some(Case::Lower))
            ));
        }
        other => panic!("expected content, got {:?}", other),
    }
}

#[test]
fn upper_on_content_wraps_in_scope() {
    let mut args = Args::new(0);
    args.push_positional(Value::Content(text_body("x")), 1);
    match upper(&args) {
        Ok(Value::Content(c)) => {
            assert!(matches!(
                c.styles[0],
                StyleEntry::CaseTransform(Some(Case::Upper))
            ));
        }
        other => panic!("expected content, got {:?}", other),
    }
}

#[test]
fn case_missing_argument() {
    let args = Args::new(13);
    match lower(&args) {
        Err(SourceError::MissingArgument { name, span }) => {
            assert_eq!(name, "string or content");
            assert_eq!(span, 13);
        }
        other => panic!("expected a missing-argument error, got {:?}", other),
    }
}

#[test]
fn case_type_mismatch() {
    let mut args = Args::new(0);
    args.push_positional(Value::Bool(true), 4);
    match upper(&args) {
        Err(SourceError::TypeMismatch { expected, actual, span }) => {
            assert_eq!(expected, "string or content");
            assert_eq!(actual, "boolean");
            assert_eq!(span, 4);
        }
        other => panic!("expected a type mismatch, got {:?}", other),
    }
}

#[test]
fn case_rejects_named() {
    let mut args = Args::new(0);
    args.push_named("to".to_owned(), Value::Str("x".to_owned()), 2);
    assert!(matches!(lower(&args), Err(SourceError::UnknownNamed { .. })));
}

#[test]
fn apply_transforms_mixed_case() {
    assert_eq!(Case::Lower.apply("MiXeD"), "mixed");
    assert_eq!(Case::Upper.apply("MiXeD"), "MIXED");
    assert_eq!(Case::Lower.apply(""), "");
}

#[test]
fn smallcaps_wraps_in_scope() {
    let mut args = Args::new(0);
    args.push_positional(Value::Content(text_body("Heading")), 1);
    match smallcaps(&args) {
        Ok(Value::Content(c)) => {
            assert_eq!(c.styles.len(), 1);
            assert!(matches!(c.styles[0], StyleEntry::Smallcaps(true)));
        }
        other => panic!("expected content, got {:?}", other),
    }
}

#[test]
fn smallcaps_missing_argument() {
    let args = Args::new(0);
    match smallcaps(&args) {
        Err(SourceError::MissingArgument { name, .. }) => assert_eq!(name, "content"),
        other => panic!("expected a missing-argument error, got {:?}", other),
    }
}

#[test]
fn coerce_bool_accepts_only_booleans() {
    assert!(matches!(coerce_bool(Value::Bool(true), 0), Ok(true)));
    match coerce_bool(Value::Str("yes".to_owned()), 3) {
        Err(SourceError::TypeMismatch { expected, actual, span }) => {
            assert_eq!(expected, "boolean");
            assert_eq!(actual, "string");
            assert_eq!(span, 3);
        }
        other => panic!("expected a type mismatch, got {:?}", other),
    }
}

#[test]
fn coerce_content_accepts_only_content() {
    assert!(coerce_content(Value::Content(text_body("x")), 0).is_ok());
    assert!(matches!(
        coerce_content(Value::Int(1), 0),
        Err(SourceError::TypeMismatch { .. })
    ));
}

#[test]
fn coerce_delta_wraps_integers_directly() {
    assert!(matches!(coerce_delta(Value::Int(300), 0), Ok(Delta(300))));
    match coerce_delta(Value::Bool(false), 0) {
        Err(SourceError::TypeMismatch { expected, actual, .. }) => {
            assert_eq!(expected, "integer");
            assert_eq!(actual, "boolean");
        }
        other => panic!("expected a type mismatch, got {:?}", other),
    }
}

#[test]
fn type_label_names_each_kind() {
    assert_eq!(Value::Bool(true).type_label(), "boolean");
    assert_eq!(Value::Int(1).type_label(), "integer");
    assert_eq!(Value::Str(String::new()).type_label(), "string");
    assert_eq!(Value::Content(text_body("x")).type_label(), "content");
}
