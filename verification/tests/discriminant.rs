use structified_enum::ast::{Attr, EnumDecl, Variant, VariantShape};
use structified_enum::expr::Expr;
use structified_enum::semantics::{constant, eval_table};
use structified_enum::synth::structify;

fn unit_variant(name: &str) -> Variant {
    Variant {
        name: name.to_string(),
        shape: VariantShape::Unit,
        discriminant: None,
        attrs: Vec::new(),
    }
}

fn explicit_variant(name: &str, expr: Expr) -> Variant {
    Variant {
        name: name.to_string(),
        shape: VariantShape::Unit,
        discriminant: Some(expr),
        attrs: Vec::new(),
    }
}

fn decl(name: &str, attrs: Vec<Attr>, variants: Vec<Variant>) -> EnumDecl {
    EnumDecl {
        vis: String::new(),
        name: name.to_string(),
        attrs,
        variants,
    }
}

fn value_of(table: &Vec<structified_enum::discriminant::ConstDecl>, name: &str) -> i128 {
    let consts = eval_table(table).unwrap();
    constant(&consts, name).unwrap().value()
}

#[test]
fn test_implicit_discriminant() {
    let d = decl(
        "ImplicitDiscriminant",
        Vec::new(),
        vec![
            unit_variant("A"),
            unit_variant("B"),
            unit_variant("C"),
            unit_variant("D"),
        ],
    );
    let frag = structify(&d).unwrap();
    let table = frag.inherent.constants;
    assert_eq!(value_of(&table, "A"), 0);
    assert_eq!(value_of(&table, "B"), 1);
    assert_eq!(value_of(&table, "C"), 2);
    assert_eq!(value_of(&table, "D"), 3);
}

#[test]
fn test_explicit_discriminant() {
    let d = decl(
        "ExplicitDiscriminant",
        Vec::new(),
        vec![
            unit_variant("A"),
            explicit_variant("B", Expr::Lit(0b11)),
            unit_variant("C"),
            explicit_variant("D", Expr::Shl(Box::new(Expr::Lit(1)), Box::new(Expr::Lit(10)))),
        ],
    );
    let frag = structify(&d).unwrap();
    let table = frag.inherent.constants;
    assert_eq!(value_of(&table, "A"), 0);
    assert_eq!(value_of(&table, "B"), 0b11);
    assert_eq!(value_of(&table, "C"), 0b11 + 1);
    assert_eq!(value_of(&table, "D"), 1 << 10);
}

#[test]
fn test_duplicate_variant_name_last_write_wins() {
    let d = decl(
        "Dup",
        Vec::new(),
        vec![unit_variant("A"), explicit_variant("A", Expr::Lit(5))],
    );
    let frag = structify(&d).unwrap();
    let table = frag.inherent.constants;
    assert_eq!(table.len(), 1);
    assert_eq!(value_of(&table, "A"), 5);
}

#[test]
fn test_opaque_discriminant_has_no_model_value() {
    let d = decl(
        "Opaque",
        Vec::new(),
        vec![explicit_variant("A", Expr::Opaque("SOME_CONST".to_string()))],
    );
    let frag = structify(&d).unwrap();
    assert!(eval_table(&frag.inherent.constants).is_none());
}

#[test]
fn test_explicit_resets_running_value_after_opaque() {
    let d = decl(
        "Mixed",
        Vec::new(),
        vec![
            explicit_variant("A", Expr::Lit(7)),
            unit_variant("B"),
            unit_variant("C"),
        ],
    );
    let frag = structify(&d).unwrap();
    let table = frag.inherent.constants;
    assert_eq!(value_of(&table, "A"), 7);
    assert_eq!(value_of(&table, "B"), 8);
    assert_eq!(value_of(&table, "C"), 9);
}
