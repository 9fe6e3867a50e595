use structified_enum::ast::{Attr, EnumDecl, Variant, VariantShape};
use structified_enum::expr::Expr;
use structified_enum::semantics::{default_value, eval_table};
use structified_enum::synth::structify;

fn derive_default_decl(name: &str, variants: Vec<Variant>) -> EnumDecl {
    EnumDecl {
        vis: String::new(),
        name: name.to_string(),
        attrs: vec![Attr::Derive(vec!["Default".to_string()])],
        variants,
    }
}

fn default_raw(d: &EnumDecl) -> i128 {
    let frag = structify(d).unwrap();
    let dflt = frag.default.expect("a default value was requested");
    let consts = eval_table(&frag.inherent.constants).unwrap();
    default_value(&dflt.source, &consts).unwrap().value()
}

#[test]
fn test_impl_default() {
    let empty = derive_default_decl("Empty", Vec::new());
    let zero = derive_default_decl(
        "Zero",
        vec![Variant {
            name: "A".to_string(),
            shape: VariantShape::Unit,
            discriminant: None,
            attrs: Vec::new(),
        }],
    );
    let neg1 = derive_default_decl(
        "Neg1",
        vec![Variant {
            name: "A".to_string(),
            shape: VariantShape::Unit,
            discriminant: Some(Expr::Lit(-1)),
            attrs: Vec::new(),
        }],
    );

    assert_eq!(default_raw(&empty), 0);
    assert_eq!(default_raw(&zero), 0);
    assert_eq!(default_raw(&neg1), -1);
}

#[test]
fn test_default_is_first_variant_not_zero_valued_one() {
    let d = derive_default_decl(
        "First",
        vec![
            Variant {
                name: "A".to_string(),
                shape: VariantShape::Unit,
                discriminant: Some(Expr::Lit(9)),
                attrs: Vec::new(),
            },
            Variant {
                name: "B".to_string(),
                shape: VariantShape::Unit,
                discriminant: Some(Expr::Lit(0)),
                attrs: Vec::new(),
            },
        ],
    );
    assert_eq!(default_raw(&d), 9);
}
