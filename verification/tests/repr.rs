use structified_enum::ast::{Attr, EnumDecl, Variant, VariantShape};
use structified_enum::diag::Diagnostic;
use structified_enum::repr::IntTy;
use structified_enum::synth::structify;

fn unit_variant(name: &str) -> Variant {
    Variant {
        name: name.to_string(),
        shape: VariantShape::Unit,
        discriminant: None,
        attrs: Vec::new(),
    }
}

fn repr_decl(name: &str, tokens: &[&str]) -> EnumDecl {
    let attrs = if tokens.is_empty() {
        Vec::new()
    } else {
        vec![Attr::Repr(tokens.iter().map(|t| t.to_string()).collect())]
    };
    EnumDecl {
        vis: String::new(),
        name: name.to_string(),
        attrs,
        variants: vec![unit_variant("A")],
    }
}

fn backing_of(tokens: &[&str]) -> IntTy {
    let frag = structify(&repr_decl("Repr", tokens)).unwrap();
    frag.wrapper.backing
}

#[test]
fn test_implicit_repr_defaults_to_i32() {
    let frag = structify(&repr_decl("ImplicitRepr", &[])).unwrap();
    assert_eq!(frag.wrapper.backing, IntTy::I32);
    assert!(!frag.wrapper.transparent);
    assert!(frag.wrapper.residual.is_empty());
}

#[test]
fn test_every_type_hint_selects_its_backing_type() {
    assert_eq!(backing_of(&["i8"]), IntTy::I8);
    assert_eq!(backing_of(&["u8"]), IntTy::U8);
    assert_eq!(backing_of(&["i16"]), IntTy::I16);
    assert_eq!(backing_of(&["u16"]), IntTy::U16);
    assert_eq!(backing_of(&["i32"]), IntTy::I32);
    assert_eq!(backing_of(&["u32"]), IntTy::U32);
    assert_eq!(backing_of(&["i64"]), IntTy::I64);
    assert_eq!(backing_of(&["u64"]), IntTy::U64);
    assert_eq!(backing_of(&["i128"]), IntTy::I128);
    assert_eq!(backing_of(&["u128"]), IntTy::U128);
    assert_eq!(backing_of(&["isize"]), IntTy::Isize);
    assert_eq!(backing_of(&["usize"]), IntTy::Usize);
}

#[test]
fn test_type_hint_makes_wrapper_transparent() {
    let frag = structify(&repr_decl("U8Repr", &["u8"])).unwrap();
    assert!(frag.wrapper.transparent);
    assert!(frag.wrapper.residual.is_empty());
}

#[test]
fn test_unrecognized_hint_is_kept_residual() {
    let frag = structify(&repr_decl("CRepr", &["C", "i32"])).unwrap();
    assert_eq!(frag.wrapper.backing, IntTy::I32);
    assert_eq!(frag.wrapper.residual, vec!["C".to_string()]);
}

#[test]
fn test_conflicting_type_hints_are_refused() {
    let r = structify(&repr_decl("DupTypeRepr", &["i32", "i64"]));
    assert!(matches!(r, Err(Diagnostic::ConflictingRepresentation)));
}

#[test]
fn test_transparent_silences_the_type_hint() {
    let frag = structify(&repr_decl("TransRepr", &["transparent", "u8"])).unwrap();
    assert_eq!(frag.wrapper.backing, IntTy::I32);
    assert!(frag.wrapper.transparent);
    assert!(frag.wrapper.residual.is_empty());
}

#[test]
fn test_transparent_alone_keeps_default_backing() {
    let frag = structify(&repr_decl("TransOnly", &["transparent"])).unwrap();
    assert_eq!(frag.wrapper.backing, IntTy::I32);
    assert!(frag.wrapper.transparent);
}
