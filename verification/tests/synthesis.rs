use structified_enum::ast::{Attr, EnumDecl, Variant, VariantShape};
use structified_enum::expr::Expr;
use structified_enum::synth::structify;

fn unit_variant(name: &str) -> Variant {
    Variant {
        name: name.to_string(),
        shape: VariantShape::Unit,
        discriminant: None,
        attrs: Vec::new(),
    }
}

#[test]
fn test_error_type_name_takes_the_wrapper_name() {
    let d = EnumDecl {
        vis: "pub".to_string(),
        name: "Color".to_string(),
        attrs: Vec::new(),
        variants: vec![unit_variant("Red")],
    };
    let frag = structify(&d).unwrap();
    assert_eq!(frag.conversions.error_name, "ColorParseError");
    assert_eq!(frag.conversions.wrapper_name, "Color");
    assert_eq!(frag.wrapper.vis, "pub");
}

#[test]
fn test_equality_is_always_derived() {
    let d = EnumDecl {
        vis: String::new(),
        name: "Foo".to_string(),
        attrs: Vec::new(),
        variants: vec![unit_variant("A")],
    };
    let frag = structify(&d).unwrap();
    assert!(frag.wrapper.derives.eq);
    assert!(!frag.wrapper.derives.ord);
    assert!(!frag.wrapper.derives.copy);
    assert!(!frag.wrapper.derives.clone);
    assert!(!frag.wrapper.derives.hash);
}

#[test]
fn test_requested_derives_are_kept() {
    let d = EnumDecl {
        vis: String::new(),
        name: "Foo".to_string(),
        attrs: vec![Attr::Derive(vec![
            "Copy".to_string(),
            "Clone".to_string(),
            "PartialOrd".to_string(),
            "Hash".to_string(),
        ])],
        variants: vec![unit_variant("A")],
    };
    let frag = structify(&d).unwrap();
    assert!(frag.wrapper.derives.eq);
    assert!(frag.wrapper.derives.ord);
    assert!(frag.wrapper.derives.copy);
    assert!(frag.wrapper.derives.clone);
    assert!(frag.wrapper.derives.hash);
    assert!(!frag.wrapper.derives.debug);
    assert!(!frag.wrapper.derives.default);
}

#[test]
fn test_shadow_re_declares_the_shape_without_attributes() {
    let d = EnumDecl {
        vis: String::new(),
        name: "Foo".to_string(),
        attrs: vec![Attr::Repr(vec!["u8".to_string()]), Attr::Cfg],
        variants: vec![
            Variant {
                name: "A".to_string(),
                shape: VariantShape::Unit,
                discriminant: Some(Expr::Lit(3)),
                attrs: vec![Attr::Cfg],
            },
            unit_variant("B"),
        ],
    };
    let frag = structify(&d).unwrap();
    let shadow = frag.shadow;
    assert_eq!(shadow.name, "Foo");
    assert!(shadow.attrs.is_empty());
    assert_eq!(shadow.variants.len(), 2);
    assert_eq!(shadow.variants[0].name, "A");
    assert!(shadow.variants[0].attrs.is_empty());
    assert!(matches!(shadow.variants[0].discriminant, Some(Expr::Lit(3))));
    assert_eq!(shadow.variants[1].name, "B");
    assert!(matches!(shadow.variants[1].discriminant, None));
}

#[test]
fn test_nothing_is_emitted_on_failure() {
    let d = EnumDecl {
        vis: String::new(),
        name: "Foo".to_string(),
        attrs: vec![Attr::Repr(vec!["i32".to_string(), "i64".to_string()])],
        variants: vec![unit_variant("A")],
    };
    assert!(structify(&d).is_err());
}
