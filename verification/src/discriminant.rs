//! Discriminant assignment.
//!
//! The variant list is walked once, in declaration order, threading a
//! running value that starts at literal zero: an explicit discriminant
//! expression both becomes the variant's assigned value and resets the
//! running value, an implicit variant takes the running value as it
//! stands, and after every variant the running value becomes the symbolic
//! successor of the value just assigned. The first variant is recorded as
//! the default variant. A repeated variant name overwrites the earlier
//! entry's value in place, so the table maps each name to exactly one
//! expression; assigned values need not be unique.

use vstd::prelude::*;

use crate::ast::{AttrV, Variant, VariantShape, VariantV};
use crate::diag::{Diagnostic, DiagnosticV};
use crate::expr::{succ, Expr, ExprV};

verus! {

/// One named constant of the synthesized wrapper: a variant name and its
/// assigned integer-valued expression.
pub struct ConstDecl {
    /// The variant's name, taken over as the constant's name.
    pub name: String,
    /// The assigned discriminant expression.
    pub expr: Expr,
}

/// The mathematical shape of a [`ConstDecl`].
pub struct ConstDeclV {
    pub name: Seq<char>,
    pub expr: ExprV,
}

impl View for ConstDecl {
    type V = ConstDeclV;

    open spec fn view(&self) -> ConstDeclV {
        ConstDeclV { name: self.name.view(), expr: self.expr.view() }
    }
}

impl DeepView for ConstDecl {
    type V = ConstDeclV;

    open spec fn deep_view(&self) -> ConstDeclV {
        self.view()
    }
}

/// The index of the first entry named `name` at or after position `i`.
pub open spec fn find_from(table: Seq<ConstDeclV>, name: Seq<char>, i: int) -> Option<int>
    decreases table.len() - i,
{
    if i < 0 || i >= table.len() {
        None
    } else if table[i].name == name {
        Some(i)
    } else {
        find_from(table, name, i + 1)
    }
}

/// The index of the entry named `name`, where there is one.
pub open spec fn find_name(table: Seq<ConstDeclV>, name: Seq<char>) -> Option<int> {
    find_from(table, name, 0)
}

/// What [`find_from`] returns: the first matching index, or nothing when
/// no entry from `i` on matches.
pub proof fn lemma_find_from(table: Seq<ConstDeclV>, name: Seq<char>, i: int)
    requires
        0 <= i <= table.len(),
    ensures
        match find_from(table, name, i) {
            Some(k) => i <= k < table.len() && table[k].name == name && forall|j: int|
                i <= j < k ==> table[j].name != name,
            None => forall|j: int| i <= j < table.len() ==> table[j].name != name,
        },
    decreases table.len() - i,
{
    if i < table.len() && table[i].name != name {
        lemma_find_from(table, name, i + 1);
    }
}

/// The table with `name` bound to `expr`: the existing entry is
/// overwritten in place, a new name goes to the end.
pub open spec fn table_insert(table: Seq<ConstDeclV>, name: Seq<char>, expr: ExprV) -> Seq<
    ConstDeclV,
> {
    match find_name(table, name) {
        Some(k) => table.update(k, ConstDeclV { name, expr }),
        None => table.push(ConstDeclV { name, expr }),
    }
}

/// Whether a variant carries only conditional markers.
pub open spec fn attrs_conditional_only(attrs: Seq<AttrV>) -> bool {
    forall|k: int| 0 <= k < attrs.len() ==> attrs[k] is Cfg
}

/// The default-variant record: the name of the first variant processed.
pub open spec fn opt_string_view(o: Option<String>) -> Option<Seq<char>> {
    match o {
        Some(s) => Some(s.view()),
        None => None,
    }
}

/// Walks the variants from position `i` on, given the running value, the
/// table built so far and the recorded default variant.
pub open spec fn assign_loop(
    vs: Seq<VariantV>,
    i: int,
    cur: ExprV,
    table: Seq<ConstDeclV>,
    dflt: Option<Seq<char>>,
) -> Result<(Seq<ConstDeclV>, Option<Seq<char>>), DiagnosticV>
    decreases vs.len() - i,
{
    if i < 0 || i >= vs.len() {
        Ok((table, dflt))
    } else {
        let v = vs[i];
        if v.shape != VariantShape::Unit {
            Err(DiagnosticV::UnsupportedVariantShape)
        } else if !attrs_conditional_only(v.attrs) {
            Err(DiagnosticV::UnsupportedAttribute)
        } else {
            let assigned = match v.discriminant {
                Some(e) => e,
                None => cur,
            };
            assign_loop(
                vs,
                i + 1,
                succ(assigned),
                table_insert(table, v.name, assigned),
                match dflt {
                    Some(d) => Some(d),
                    None => Some(v.name),
                },
            )
        }
    }
}

/// What discriminant assignment returns on a variant list: the table of
/// named constants and the default variant, or the first diagnostic.
pub open spec fn assign(vs: Seq<VariantV>) -> Result<
    (Seq<ConstDeclV>, Option<Seq<char>>),
    DiagnosticV,
> {
    assign_loop(vs, 0, ExprV::Lit(0), Seq::empty(), None)
}

/// Whether every attribute of this list is a conditional marker, per
/// [`attrs_conditional_only`].
fn check_attrs_conditional(attrs: &Vec<crate::ast::Attr>) -> (r: bool)
    ensures
        r == attrs_conditional_only(attrs.deep_view()),
{
    let n = attrs.len();
    let mut i: usize = 0;
    while i < n
        invariant
            n == attrs.len(),
            0 <= i <= n,
            forall|k: int| 0 <= k < i ==> attrs.deep_view()[k] is Cfg,
        decreases n - i,
    {
        assert(attrs.deep_view()[i as int] == attrs@[i as int]@);
        match &attrs[i] {
            crate::ast::Attr::Cfg => {},
            _ => {
                assert(!(attrs.deep_view()[i as int] is Cfg));
                return false;
            },
        }
        i += 1;
    }
    true
}

/// The index of the entry named `name`, per [`find_name`].
pub fn find_in_table(table: &Vec<ConstDecl>, name: &str) -> (r: Option<usize>)
    ensures
        match r {
            Some(k) => find_name(table.deep_view(), name@) == Some(k as int),
            None => find_name(table.deep_view(), name@) is None,
        },
{
    let ghost t = table.deep_view();
    let n = table.len();
    let mut i: usize = 0;
    while i < n
        invariant
            n == table.len(),
            t == table.deep_view(),
            0 <= i <= n,
            forall|j: int| 0 <= j < i ==> t[j].name != name@,
        decreases n - i,
    {
        assert(t[i as int] == table@[i as int]@);
        if crate::repr::str_eq(table[i].name.as_str(), name) {
            proof {
                lemma_find_from(t, name@, 0);
            }
            return Some(i);
        }
        i += 1;
    }
    proof {
        lemma_find_from(t, name@, 0);
    }
    None
}

/// Binds `name` to `expr` in the table, per [`table_insert`].
fn insert_into_table(table: &mut Vec<ConstDecl>, name: String, expr: Expr)
    ensures
        final(table).deep_view() == table_insert(old(table).deep_view(), name@, expr@),
{
    let ghost t0 = table.deep_view();
    match find_in_table(table, name.as_str()) {
        Some(k) => {
            proof {
                lemma_find_from(t0, name@, 0);
            }
            table.set(k, ConstDecl { name, expr });
            assert(table.deep_view() =~= table_insert(t0, name@, expr@));
        },
        None => {
            table.push(ConstDecl { name, expr });
            assert(table.deep_view() =~= table_insert(t0, name@, expr@));
        },
    }
}

/// Assigns a value to every variant, per [`assign`].
pub fn assign_discriminants(variants: &Vec<Variant>) -> (r: Result<
    (Vec<ConstDecl>, Option<String>),
    Diagnostic,
>)
    ensures
        match r {
            Ok(td) => assign(variants.deep_view()) == Ok::<_, DiagnosticV>(
                (td.0.deep_view(), opt_string_view(td.1)),
            ),
            Err(d) => assign(variants.deep_view()) == Err::<
                (Seq<ConstDeclV>, Option<Seq<char>>),
                _,
            >(d@),
        },
{
    let ghost vs = variants.deep_view();
    let mut cur = Expr::Lit(0);
    let mut table: Vec<ConstDecl> = Vec::new();
    let mut dflt: Option<String> = None;
    assert(table.deep_view() =~= Seq::<ConstDeclV>::empty());
    let n = variants.len();
    let mut i: usize = 0;
    while i < n
        invariant
            n == variants.len(),
            vs == variants.deep_view(),
            0 <= i <= n,
            assign_loop(vs, i as int, cur@, table.deep_view(), opt_string_view(dflt)) == assign(
                vs,
            ),
        decreases n - i,
    {
        let v = &variants[i];
        assert(vs[i as int] == variants@[i as int]@);
        if v.shape != VariantShape::Unit {
            return Err(Diagnostic::UnsupportedVariantShape);
        }
        if !check_attrs_conditional(&v.attrs) {
            return Err(Diagnostic::UnsupportedAttribute);
        }
        if let Some(e) = &v.discriminant {
            cur = e.duplicate();
        }
        if dflt.is_none() {
            dflt = Some(v.name.clone());
        }
        let ghost assigned = cur@;
        insert_into_table(&mut table, v.name.clone(), cur.duplicate());
        cur = cur.successor();
        assert(cur@ == succ(assigned));
        i += 1;
    }
    Ok((table, dflt))
}

} // verus!
