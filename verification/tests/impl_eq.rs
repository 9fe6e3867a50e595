use structified_enum::ast::{Attr, EnumDecl, Variant, VariantShape};
use structified_enum::semantics::{
    constant, eval_table, try_from_name, try_to_name, WrapperValue,
};
use structified_enum::synth::structify;

fn foo_decl() -> EnumDecl {
    EnumDecl {
        vis: String::new(),
        name: "Foo".to_string(),
        attrs: vec![Attr::Derive(vec!["Debug".to_string()])],
        variants: vec![
            Variant {
                name: "A".to_string(),
                shape: VariantShape::Unit,
                discriminant: None,
                attrs: Vec::new(),
            },
            Variant {
                name: "B".to_string(),
                shape: VariantShape::Unit,
                discriminant: None,
                attrs: Vec::new(),
            },
        ],
    }
}

#[test]
fn test_pattern_match() {
    let frag = structify(&foo_decl()).unwrap();
    let consts = eval_table(&frag.conversions.constants).unwrap();
    let a = constant(&consts, "A").unwrap();
    let b = constant(&consts, "B").unwrap();

    assert!(a == a);
    assert!(b == b);
    assert!(a != b);
    assert!(WrapperValue::new(3) != a);
    assert!(matches!(try_from_name(&consts, "A"), Ok(w) if w == a));
    assert!(matches!(try_from_name(&consts, "B"), Ok(w) if w == b));
    assert!(try_from_name(&consts, "C").is_err());
    let aa: String = try_to_name(&consts, a).unwrap();
    assert_eq!(aa, "A".to_string());
}

#[test]
fn test_eq() {
    let frag = structify(&foo_decl()).unwrap();
    let consts = eval_table(&frag.conversions.constants).unwrap();
    assert_eq!(constant(&consts, "A").unwrap(), WrapperValue::new(0));
    assert_eq!(constant(&consts, "B").unwrap(), WrapperValue::new(1));
}

#[test]
fn test_name_round_trip_for_every_variant() {
    let frag = structify(&foo_decl()).unwrap();
    let consts = eval_table(&frag.conversions.constants).unwrap();
    for name in ["A", "B"] {
        let w = try_from_name(&consts, name).unwrap();
        let back = try_to_name(&consts, w).unwrap();
        assert_eq!(back, name.to_string());
    }
}

#[test]
fn test_value_round_trip_for_every_variant() {
    let frag = structify(&foo_decl()).unwrap();
    let consts = eval_table(&frag.conversions.constants).unwrap();
    for name in ["A", "B"] {
        let c = constant(&consts, name).unwrap();
        let raw = c.value();
        assert_eq!(WrapperValue::new(raw), c);
        assert_eq!(WrapperValue::new(raw).value(), raw);
    }
}

#[test]
fn test_construction_is_total() {
    for raw in [i128::MIN, -1, 0, 1, i128::MAX] {
        assert_eq!(WrapperValue::new(raw).value(), raw);
    }
}
