use structified_enum::ast::{Attr, EnumDecl, Variant, VariantShape};
use structified_enum::expr::Expr;
use structified_enum::semantics::{constant, eval_table, render_debug, WrapperValue};
use structified_enum::synth::structify;

fn unit_variant(name: &str) -> Variant {
    Variant {
        name: name.to_string(),
        shape: VariantShape::Unit,
        discriminant: None,
        attrs: Vec::new(),
    }
}

#[test]
fn test_debug_impl() {
    let d = EnumDecl {
        vis: String::new(),
        name: "Foo".to_string(),
        attrs: vec![Attr::Derive(vec!["Debug".to_string()])],
        variants: vec![unit_variant("A")],
    };
    let frag = structify(&d).unwrap();
    let debug = frag.debug.expect("debug formatting was requested");
    let consts = eval_table(&debug.constants).unwrap();

    let a = render_debug(&debug.wrapper_name, &consts, constant(&consts, "A").unwrap());
    let a1 = render_debug(&debug.wrapper_name, &consts, WrapperValue::new(0));
    let unknown = render_debug(&debug.wrapper_name, &consts, WrapperValue::new(1));

    assert_eq!(a, "A");
    assert_eq!(a1, "A");
    assert_eq!(unknown, "Foo(1)");
}

#[test]
fn test_debug_renders_negative_fallback() {
    let d = EnumDecl {
        vis: String::new(),
        name: "Neg".to_string(),
        attrs: vec![Attr::Derive(vec!["Debug".to_string()])],
        variants: vec![unit_variant("A")],
    };
    let frag = structify(&d).unwrap();
    let debug = frag.debug.unwrap();
    let consts = eval_table(&debug.constants).unwrap();
    let rendered = render_debug(&debug.wrapper_name, &consts, WrapperValue::new(-1));
    assert_eq!(rendered, "Neg(-1)");
}

#[test]
fn test_debug_not_emitted_without_request() {
    let d = EnumDecl {
        vis: String::new(),
        name: "Foo".to_string(),
        attrs: Vec::new(),
        variants: vec![unit_variant("A")],
    };
    let frag = structify(&d).unwrap();
    assert!(frag.debug.is_none());
    assert!(frag.default.is_none());
}

#[test]
fn test_debug_prefers_first_of_equal_values() {
    let d = EnumDecl {
        vis: String::new(),
        name: "Eq".to_string(),
        attrs: vec![Attr::Derive(vec!["Debug".to_string()])],
        variants: vec![
            Variant {
                name: "A".to_string(),
                shape: VariantShape::Unit,
                discriminant: Some(Expr::Lit(0)),
                attrs: Vec::new(),
            },
            Variant {
                name: "B".to_string(),
                shape: VariantShape::Unit,
                discriminant: Some(Expr::Lit(0)),
                attrs: Vec::new(),
            },
        ],
    };
    let frag = structify(&d).unwrap();
    let debug = frag.debug.unwrap();
    let consts = eval_table(&debug.constants).unwrap();
    let rendered = render_debug(&debug.wrapper_name, &consts, WrapperValue::new(0));
    assert_eq!(rendered, "A");
}
