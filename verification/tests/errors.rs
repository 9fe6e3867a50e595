use structified_enum::ast::{Attr, EnumDecl, Variant, VariantShape};
use structified_enum::diag::{Diagnostic, ParseError};
use structified_enum::semantics::{eval_table, parse_error_message, try_from_name, try_to_name,
    WrapperValue};
use structified_enum::synth::structify;

fn unit_variant(name: &str) -> Variant {
    Variant {
        name: name.to_string(),
        shape: VariantShape::Unit,
        discriminant: None,
        attrs: Vec::new(),
    }
}

fn decl(attrs: Vec<Attr>, variants: Vec<Variant>) -> EnumDecl {
    EnumDecl {
        vis: String::new(),
        name: "Foo".to_string(),
        attrs,
        variants,
    }
}

#[test]
fn test_unsupported_attribute_on_declaration() {
    let r = structify(&decl(vec![Attr::Other], vec![unit_variant("A")]));
    assert!(matches!(r, Err(Diagnostic::UnsupportedAttribute)));
}

#[test]
fn test_unsupported_attribute_on_variant() {
    let v = Variant {
        name: "A".to_string(),
        shape: VariantShape::Unit,
        discriminant: None,
        attrs: vec![Attr::Other],
    };
    let r = structify(&decl(Vec::new(), vec![v]));
    assert!(matches!(r, Err(Diagnostic::UnsupportedAttribute)));
}

#[test]
fn test_conditional_marker_passes_through() {
    let v = Variant {
        name: "A".to_string(),
        shape: VariantShape::Unit,
        discriminant: None,
        attrs: vec![Attr::Cfg],
    };
    let r = structify(&decl(vec![Attr::Cfg], vec![v]));
    assert!(r.is_ok());
}

#[test]
fn test_unsupported_capability() {
    let r = structify(&decl(
        vec![Attr::Derive(vec!["Serialize".to_string()])],
        vec![unit_variant("A")],
    ));
    match r {
        Err(Diagnostic::UnsupportedCapability(name)) => assert_eq!(name, "Serialize"),
        _ => panic!("expected an unsupported-capability diagnostic"),
    }
}

#[test]
fn test_unsupported_variant_shape() {
    let v = Variant {
        name: "A".to_string(),
        shape: VariantShape::Data,
        discriminant: None,
        attrs: Vec::new(),
    };
    let r = structify(&decl(Vec::new(), vec![v]));
    assert!(matches!(r, Err(Diagnostic::UnsupportedVariantShape)));
}

#[test]
fn test_unrecognized_value_error() {
    let frag = structify(&decl(Vec::new(), vec![unit_variant("A")])).unwrap();
    let consts = eval_table(&frag.conversions.constants).unwrap();
    let r = try_to_name(&consts, WrapperValue::new(42));
    assert!(matches!(r, Err(ParseError::UnrecognizedValue(42))));
}

#[test]
fn test_unrecognized_string_error() {
    let frag = structify(&decl(Vec::new(), vec![unit_variant("A")])).unwrap();
    let consts = eval_table(&frag.conversions.constants).unwrap();
    match try_from_name(&consts, "Nope") {
        Err(ParseError::UnrecognizedString(s)) => assert_eq!(s, "Nope"),
        _ => panic!("expected an unrecognized-string error"),
    }
}

#[test]
fn test_parse_error_rendering() {
    let value_err = parse_error_message("FooParseError", &ParseError::UnrecognizedValue(5));
    assert_eq!(value_err, "FooParseError Parse Unrecognized value: 5");
    let negative_err = parse_error_message("FooParseError", &ParseError::UnrecognizedValue(-12));
    assert_eq!(negative_err, "FooParseError Parse Unrecognized value: -12");
    let string_err = parse_error_message(
        "FooParseError",
        &ParseError::UnrecognizedString("Nope".to_string()),
    );
    assert_eq!(string_err, "FooParseError Parse Unrecognized string: Nope");
}
