//! The library's general laws, stated and proved once for all inputs.
//!
//! Each proof function here pins down one property of the pipeline that
//! holds beyond any single example: the values implicit discriminants get,
//! how representation resolution decides, where the default value comes
//! from, that the name and value conversions round-trip, and that only the
//! diagnostic conversions are fallible.

use vstd::prelude::*;

use crate::ast::{VariantShape, VariantV};
use crate::diag::{DiagnosticV, ParseErrorV};
use crate::discriminant::{
    assign, assign_loop, attrs_conditional_only, find_name, lemma_find_from, table_insert,
    ConstDeclV,
};
use crate::expr::{eval, ExprV};
use crate::repr::{
    first_type, has_transparent, lemma_first_type_count, resolve, residual_of, type_count, IntTy,
    ResolvedReprV,
};
use crate::semantics::{
    default_value_spec, find_const, from_name_spec, lemma_find_const_from, lemma_find_value_from,
    table_values, to_name_spec, ValuedConstV,
};
use crate::synth::DefaultSourceV;

verus! {

/// Whether every variant from position `i` on is a bare symbol without an
/// explicit discriminant, carrying only conditional markers.
pub open spec fn implicit_unit_variants(vs: Seq<VariantV>, i: int) -> bool {
    forall|j: int|
        i <= j < vs.len() ==> (vs[j].shape == VariantShape::Unit && vs[j].discriminant is None
            && attrs_conditional_only(vs[j].attrs))
}

/// Whether the variant names from position `i` on are pairwise distinct.
pub open spec fn distinct_variant_names(vs: Seq<VariantV>, i: int) -> bool {
    forall|j: int, j2: int| i <= j < j2 < vs.len() ==> vs[j].name != vs[j2].name
}

/// Walking implicit unit variants from a literal running value appends one
/// entry per variant, with consecutive literal values.
proof fn lemma_assign_loop_implicit(
    vs: Seq<VariantV>,
    i: int,
    k: i128,
    table: Seq<ConstDeclV>,
    dflt: Option<Seq<char>>,
)
    requires
        0 <= i <= vs.len(),
        k + (vs.len() - i) <= i128::MAX,
        implicit_unit_variants(vs, i),
        distinct_variant_names(vs, i),
        forall|j: int| i <= j < vs.len() ==> find_name(table, vs[j].name) is None,
    ensures
        assign_loop(vs, i, ExprV::Lit(k), table, dflt) matches Ok(res) && {
            &&& res.0.len() == table.len() + (vs.len() - i)
            &&& forall|m: int| 0 <= m < table.len() ==> res.0[m] == table[m]
            &&& forall|j: int|
                i <= j < vs.len() ==> res.0[table.len() + (j - i)] == (ConstDeclV {
                    name: vs[j].name,
                    expr: ExprV::Lit((k + (j - i)) as i128),
                })
            &&& res.1 == (if dflt is Some {
                dflt
            } else if i < vs.len() {
                Some(vs[i].name)
            } else {
                None
            })
        },
    decreases vs.len() - i,
{
    if i < vs.len() {
        let entry = ConstDeclV { name: vs[i].name, expr: ExprV::Lit(k) };
        assert(table_insert(table, vs[i].name, ExprV::Lit(k)) == table.push(entry));
        let table2 = table.push(entry);
        assert forall|j: int| i + 1 <= j < vs.len() implies find_name(table2, vs[j].name)
            is None by {
            lemma_find_from(table2, vs[j].name, 0);
            lemma_find_from(table, vs[j].name, 0);
            match find_name(table2, vs[j].name) {
                Some(m) => {
                    if m < table.len() {
                        assert(table[m].name == vs[j].name);
                    } else {
                        assert(table2[m] == entry);
                    }
                },
                None => {},
            }
        }
        let dflt2 = if dflt is Some {
            dflt
        } else {
            Some(vs[i].name)
        };
        lemma_assign_loop_implicit(vs, i + 1, (k + 1) as i128, table2, dflt2);
        assert(crate::expr::succ(ExprV::Lit(k)) == ExprV::Lit((k + 1) as i128));
        let r = assign_loop(vs, i + 1, ExprV::Lit((k + 1) as i128), table2, dflt2);
        assert(assign_loop(vs, i, ExprV::Lit(k), table, dflt) == r);
        match r {
            Ok(res) => {
                assert forall|m: int| 0 <= m < table.len() implies res.0[m] == table[m] by {
                    assert(res.0[m] == table2[m]);
                }
                assert forall|j: int| i <= j < vs.len() implies res.0[table.len() + (j - i)]
                    == (ConstDeclV {
                    name: vs[j].name,
                    expr: ExprV::Lit((k + (j - i)) as i128),
                }) by {
                    if j == i {
                        assert(res.0[table.len() as int] == table2[table.len() as int]);
                    } else {
                        assert(res.0[table2.len() + (j - (i + 1))] == (ConstDeclV {
                            name: vs[j].name,
                            expr: ExprV::Lit((((k + 1) as i128) + (j - (i + 1))) as i128),
                        }));
                        assert(((k + 1) as i128) + (j - (i + 1)) == k + (j - i));
                    }
                }
            },
            Err(_) => {
                assert(false);
            },
        }
    }
}

/// With bare variants and no explicit discriminants, the assigned values
/// are exactly `0 .. N - 1`, in declaration order, and the first variant
/// is the default variant.
pub proof fn lemma_implicit_discriminants(vs: Seq<VariantV>)
    requires
        vs.len() <= i128::MAX,
        implicit_unit_variants(vs, 0),
        distinct_variant_names(vs, 0),
    ensures
        assign(vs) matches Ok(res) && {
            &&& res.0.len() == vs.len()
            &&& forall|j: int|
                0 <= j < vs.len() ==> res.0[j] == (ConstDeclV {
                    name: vs[j].name,
                    expr: ExprV::Lit(j as i128),
                })
            &&& res.1 == (if vs.len() > 0 {
                Some(vs[0].name)
            } else {
                None::<Seq<char>>
            })
        },
{
    assert forall|j: int| 0 <= j < vs.len() implies find_name(
        Seq::<ConstDeclV>::empty(),
        vs[j].name,
    ) is None by {
        lemma_find_from(Seq::empty(), vs[j].name, 0);
    }
    lemma_assign_loop_implicit(vs, 0, 0, Seq::empty(), None);
}

/// Walking any run of valid variants appends one entry per distinct name,
/// keeps what the table already holds, assigns the first variant of the
/// run its explicit expression or the running value, and records the first
/// variant as the default where none is recorded yet.
proof fn lemma_assign_loop_structure(
    vs: Seq<VariantV>,
    i: int,
    cur: ExprV,
    table: Seq<ConstDeclV>,
    dflt: Option<Seq<char>>,
)
    requires
        0 <= i <= vs.len(),
        forall|j: int|
            i <= j < vs.len() ==> (vs[j].shape == VariantShape::Unit && attrs_conditional_only(
                vs[j].attrs,
            )),
        distinct_variant_names(vs, i),
        forall|j: int| i <= j < vs.len() ==> find_name(table, vs[j].name) is None,
    ensures
        assign_loop(vs, i, cur, table, dflt) matches Ok(res) && {
            &&& res.0.len() == table.len() + (vs.len() - i)
            &&& forall|m: int| 0 <= m < table.len() ==> res.0[m] == table[m]
            &&& forall|j: int| i <= j < vs.len() ==> res.0[table.len() + (j - i)].name == vs[j].name
            &&& (i < vs.len() ==> res.0[table.len() as int].expr == (match vs[i].discriminant {
                Some(e) => e,
                None => cur,
            }))
            &&& res.1 == (if dflt is Some {
                dflt
            } else if i < vs.len() {
                Some(vs[i].name)
            } else {
                None
            })
        },
    decreases vs.len() - i,
{
    if i < vs.len() {
        let assigned = match vs[i].discriminant {
            Some(e) => e,
            None => cur,
        };
        let entry = ConstDeclV { name: vs[i].name, expr: assigned };
        assert(table_insert(table, vs[i].name, assigned) == table.push(entry));
        let table2 = table.push(entry);
        assert forall|j: int| i + 1 <= j < vs.len() implies find_name(table2, vs[j].name)
            is None by {
            lemma_find_from(table2, vs[j].name, 0);
            lemma_find_from(table, vs[j].name, 0);
            match find_name(table2, vs[j].name) {
                Some(m) => {
                    if m < table.len() {
                        assert(table[m].name == vs[j].name);
                    } else {
                        assert(table2[m] == entry);
                    }
                },
                None => {},
            }
        }
        let dflt2 = if dflt is Some {
            dflt
        } else {
            Some(vs[i].name)
        };
        lemma_assign_loop_structure(vs, i + 1, crate::expr::succ(assigned), table2, dflt2);
        let r = assign_loop(vs, i + 1, crate::expr::succ(assigned), table2, dflt2);
        assert(assign_loop(vs, i, cur, table, dflt) == r);
        match r {
            Ok(res) => {
                assert(res.0[table.len() as int] == table2[table.len() as int]);
                assert forall|m: int| 0 <= m < table.len() implies res.0[m] == table[m] by {
                    assert(res.0[m] == table2[m]);
                }
                assert forall|j: int| i <= j < vs.len() implies res.0[table.len() + (j - i)].name
                    == vs[j].name by {
                    if j == i {
                        assert(res.0[table.len() as int] == table2[table.len() as int]);
                    } else {
                        assert(res.0[table2.len() + (j - (i + 1))].name == vs[j].name);
                    }
                }
            },
            Err(_) => {
                assert(false);
            },
        }
    }
}

/// Whether the table's entry names are pairwise distinct.
pub open spec fn distinct_table_names(table: Seq<ConstDeclV>) -> bool {
    forall|m: int, m2: int| 0 <= m < m2 < table.len() ==> table[m].name != table[m2].name
}

/// Whatever the input, a successful assignment maps each name to exactly
/// one entry: a repeated variant name overwrites in place, so the table's
/// names stay pairwise distinct.
proof fn lemma_assign_loop_names_distinct(
    vs: Seq<VariantV>,
    i: int,
    cur: ExprV,
    table: Seq<ConstDeclV>,
    dflt: Option<Seq<char>>,
)
    requires
        0 <= i <= vs.len(),
        distinct_table_names(table),
    ensures
        assign_loop(vs, i, cur, table, dflt) matches Ok(res) ==> distinct_table_names(res.0),
    decreases vs.len() - i,
{
    if i < vs.len() && vs[i].shape == VariantShape::Unit && attrs_conditional_only(vs[i].attrs) {
        let assigned = match vs[i].discriminant {
            Some(e) => e,
            None => cur,
        };
        let table2 = table_insert(table, vs[i].name, assigned);
        lemma_find_from(table, vs[i].name, 0);
        match find_name(table, vs[i].name) {
            Some(k) => {
                assert(table2 =~= table.update(k, ConstDeclV { name: vs[i].name, expr: assigned }));
                assert(table[k].name == vs[i].name);
                assert(distinct_table_names(table2));
            },
            None => {
                assert(table2 =~= table.push(ConstDeclV { name: vs[i].name, expr: assigned }));
                assert forall|m: int, m2: int|
                    0 <= m < m2 < table2.len() implies table2[m].name != table2[m2].name by {
                    if m2 == table.len() as int {
                        assert(table[m].name != vs[i].name);
                    }
                }
            },
        }
        let dflt2 = match dflt {
            Some(d) => Some(d),
            None => Some(vs[i].name),
        };
        lemma_assign_loop_names_distinct(vs, i + 1, crate::expr::succ(assigned), table2, dflt2);
    }
}

/// A successful assignment never binds one name twice.
pub proof fn lemma_assign_names_distinct(vs: Seq<VariantV>)
    ensures
        assign(vs) matches Ok(res) ==> distinct_table_names(res.0),
{
    lemma_assign_loop_names_distinct(vs, 0, ExprV::Lit(0), Seq::empty(), None);
}

/// The evaluated table keeps every entry's name and position, and holds
/// exactly the value of every entry's expression.
pub proof fn lemma_table_values(table: Seq<ConstDeclV>, n: int)
    requires
        0 <= n <= table.len(),
        crate::semantics::eval_prefix(table, n) is Some,
    ensures
        crate::semantics::eval_prefix(table, n) matches Some(cs) && {
            &&& cs.len() == n
            &&& forall|m: int|
                0 <= m < n ==> (cs[m].name == table[m].name && Some(cs[m].value) == eval(
                    table[m].expr,
                ))
        },
    decreases n,
{
    if n > 0 {
        lemma_table_values(table, n - 1);
    }
}

/// Representation resolution, case by case: no hints at all leave the
/// default backing type and no transparency; a single recognized type
/// hint without the transparent marker selects that type and makes the
/// wrapper transparent; a second type hint is exactly what the conflict
/// diagnostic answers; and the transparent marker silences a type hint,
/// the backing type falling back to the default.
pub proof fn lemma_representation_resolution(tokens: Seq<Seq<char>>)
    ensures
        tokens.len() == 0 ==> resolve(tokens) == Ok::<ResolvedReprV, DiagnosticV>(
            ResolvedReprV {
                backing: IntTy::I32,
                transparent: false,
                residual: Seq::empty(),
            },
        ),
        (resolve(tokens) is Err) <==> type_count(tokens, tokens.len() as int) >= 2,
        (resolve(tokens) is Err) ==> resolve(tokens) == Err::<ResolvedReprV, DiagnosticV>(
            DiagnosticV::ConflictingRepresentation,
        ),
        !has_transparent(tokens) && type_count(tokens, tokens.len() as int) == 1 ==> (resolve(
            tokens,
        ) matches Ok(rr) && first_type(tokens, tokens.len() as int) matches Some(ty)
            && rr.backing == ty && rr.transparent),
        has_transparent(tokens) && type_count(tokens, tokens.len() as int) <= 1 ==> (resolve(
            tokens,
        ) matches Ok(rr) && rr.backing == IntTy::I32 && rr.transparent),
{
    lemma_first_type_count(tokens, tokens.len() as int);
    if tokens.len() == 0 {
        assert(residual_of(tokens, 0) =~= Seq::<Seq<char>>::empty());
    }
}

/// The default value of a declaration without variants is literal zero.
pub proof fn lemma_default_empty()
    ensures
        assign(Seq::empty()) == Ok::<_, DiagnosticV>(
            (Seq::<ConstDeclV>::empty(), None::<Seq<char>>),
        ),
        default_value_spec(DefaultSourceV::Zero, Seq::empty()) == Some(0i128),
{
}

/// The default variant is the first declared variant, and the synthesized
/// default value is that variant's assigned value: its explicit
/// discriminant expression, or literal zero at the head of the list.
pub proof fn lemma_default_first_variant(
    vs: Seq<VariantV>,
    table: Seq<ConstDeclV>,
    dflt: Option<Seq<char>>,
    cs: Seq<ValuedConstV>,
)
    requires
        vs.len() > 0,
        forall|j: int|
            0 <= j < vs.len() ==> (vs[j].shape == VariantShape::Unit && attrs_conditional_only(
                vs[j].attrs,
            )),
        distinct_variant_names(vs, 0),
        assign(vs) == Ok::<_, DiagnosticV>((table, dflt)),
        table_values(table) == Some(cs),
    ensures
        dflt == Some(vs[0].name),
        default_value_spec(DefaultSourceV::Variant(vs[0].name), cs) == eval(
            match vs[0].discriminant {
                Some(e) => e,
                None => ExprV::Lit(0),
            },
        ),
{
    assert forall|j: int| 0 <= j < vs.len() implies find_name(
        Seq::<ConstDeclV>::empty(),
        vs[j].name,
    ) is None by {
        lemma_find_from(Seq::empty(), vs[j].name, 0);
    }
    lemma_assign_loop_structure(vs, 0, ExprV::Lit(0), Seq::empty(), None);
    lemma_table_values(table, table.len() as int);
    lemma_find_const_from(cs, vs[0].name, 0);
    match find_const(cs, vs[0].name) {
        Some(k) => {
            if k != 0 {
                assert(table[k].name == vs[k].name);
                assert(vs[0].name != vs[k].name);
            }
        },
        None => {
            assert(cs[0].name == vs[0].name);
        },
    }
}

/// For every declared constant, converting its name to the wrapper and
/// back yields the original name, and converting the name to the wrapper
/// gives exactly the constant's value; converting a constant's value to a
/// raw value and back is the identity by construction. This holds when
/// names and values are each pairwise distinct; two constants sharing one
/// value make the value-to-name direction answer the first of them.
pub proof fn lemma_round_trip(cs: Seq<ValuedConstV>, k: int)
    requires
        0 <= k < cs.len(),
        forall|i: int, j: int| 0 <= i < j < cs.len() ==> cs[i].name != cs[j].name,
        forall|i: int, j: int| 0 <= i < j < cs.len() ==> cs[i].value != cs[j].value,
    ensures
        from_name_spec(cs, cs[k].name) == Ok::<i128, ParseErrorV>(cs[k].value),
        to_name_spec(cs, cs[k].value) == Ok::<Seq<char>, ParseErrorV>(cs[k].name),
{
    lemma_find_const_from(cs, cs[k].name, 0);
    match find_const(cs, cs[k].name) {
        Some(m) => {
            if m != k {
                assert(cs[m].name == cs[k].name);
            }
        },
        None => {
            assert(cs[k].name == cs[k].name);
        },
    }
    lemma_find_value_from(cs, cs[k].value, 0);
    match crate::semantics::find_value(cs, cs[k].value) {
        Some(m) => {
            if m != k {
                assert(cs[m].value == cs[k].value);
            }
        },
        None => {
            assert(cs[k].value == cs[k].value);
        },
    }
}

/// Construction from a raw value is total — the synthesized constructor
/// accepts every raw value — and only the diagnostic conversions are
/// fallible: the conversion from a name fails exactly when no constant
/// bears the name, the conversion to a name exactly when no constant has
/// the value, each returning the offending input.
pub proof fn lemma_only_conversions_fallible(cs: Seq<ValuedConstV>, name: Seq<char>, raw: i128)
    ensures
        (from_name_spec(cs, name) is Err) <==> (forall|j: int|
            0 <= j < cs.len() ==> cs[j].name != name),
        (from_name_spec(cs, name) is Err) ==> from_name_spec(cs, name) == Err::<
            i128,
            ParseErrorV,
        >(ParseErrorV::UnrecognizedString(name)),
        (to_name_spec(cs, raw) is Err) <==> (forall|j: int|
            0 <= j < cs.len() ==> cs[j].value != raw),
        (to_name_spec(cs, raw) is Err) ==> to_name_spec(cs, raw) == Err::<
            Seq<char>,
            ParseErrorV,
        >(ParseErrorV::UnrecognizedValue(raw)),
{
    lemma_find_const_from(cs, name, 0);
    lemma_find_value_from(cs, raw, 0);
}

} // verus!
