//! The runtime behavior of the synthesized fragment.
//!
//! The fragment itself is only a description of declarations; this module
//! states what the declared operations compute, so that the behavior of the
//! synthesized wrapper — total construction, the raw-value accessor, the
//! fallible name and value conversions, the debug formatter and the default
//! value — is pinned down and provable. The functions here work on the
//! evaluated constant table: the named constants with each expression
//! reduced to its value, as the downstream compiler would reduce it.

use vstd::prelude::*;

use vstd::string::StringExecFns;

use crate::decimal::{dec_i128, decimal_string_i128};
use crate::diag::{ParseError, ParseErrorV};
use crate::discriminant::{ConstDecl, ConstDeclV};
use crate::expr::eval;
use crate::synth::{DefaultSource, DefaultSourceV};

verus! {

/// A runtime value of the synthesized wrapper: its single raw field.
#[derive(PartialEq, Eq, Structural, Clone, Copy, Debug)]
pub struct WrapperValue {
    /// The raw value of the backing type.
    pub raw: i128,
}

impl WrapperValue {
    /// The synthesized constructor: total, for every raw value.
    pub fn new(raw: i128) -> (r: WrapperValue)
        ensures
            r.raw == raw,
    {
        WrapperValue { raw }
    }

    /// The synthesized accessor: the raw value back out.
    pub fn value(self) -> (r: i128)
        ensures
            r == self.raw,
    {
        self.raw
    }
}

/// A named constant with its expression reduced to a value.
pub struct ValuedConst {
    /// The constant's name.
    pub name: String,
    /// The constant's raw value.
    pub value: i128,
}

/// The mathematical shape of a [`ValuedConst`].
pub struct ValuedConstV {
    pub name: Seq<char>,
    pub value: i128,
}

impl View for ValuedConst {
    type V = ValuedConstV;

    open spec fn view(&self) -> ValuedConstV {
        ValuedConstV { name: self.name.view(), value: self.value }
    }
}

impl DeepView for ValuedConst {
    type V = ValuedConstV;

    open spec fn deep_view(&self) -> ValuedConstV {
        self.view()
    }
}

/// The evaluated forms of the first `n` table entries, where every one of
/// them has a value.
pub open spec fn eval_prefix(table: Seq<ConstDeclV>, n: int) -> Option<Seq<ValuedConstV>>
    decreases n,
{
    if n <= 0 {
        Some(Seq::empty())
    } else {
        match (eval_prefix(table, n - 1), eval(table[n - 1].expr)) {
            (Some(rest), Some(v)) => Some(
                rest.push(ValuedConstV { name: table[n - 1].name, value: v }),
            ),
            _ => None,
        }
    }
}

/// The evaluated constant table: every entry's name with its value, in
/// table order, or nothing when some expression has no value in the model.
pub open spec fn table_values(table: Seq<ConstDeclV>) -> Option<Seq<ValuedConstV>> {
    eval_prefix(table, table.len() as int)
}

/// One entry without a value leaves the whole prefix without one.
proof fn lemma_eval_prefix_none(table: Seq<ConstDeclV>, i: int, n: int)
    requires
        0 <= i < n <= table.len(),
        eval(table[i].expr) is None,
    ensures
        eval_prefix(table, n) is None,
    decreases n,
{
    if i < n - 1 {
        lemma_eval_prefix_none(table, i, n - 1);
    }
}

/// The index of the first constant named `name` at or after position `i`.
pub open spec fn find_const_from(cs: Seq<ValuedConstV>, name: Seq<char>, i: int) -> Option<int>
    decreases cs.len() - i,
{
    if i < 0 || i >= cs.len() {
        None
    } else if cs[i].name == name {
        Some(i)
    } else {
        find_const_from(cs, name, i + 1)
    }
}

/// The index of the constant named `name`, where there is one.
pub open spec fn find_const(cs: Seq<ValuedConstV>, name: Seq<char>) -> Option<int> {
    find_const_from(cs, name, 0)
}

/// The index of the first constant whose value is `raw`, at or after
/// position `i`.
pub open spec fn find_value_from(cs: Seq<ValuedConstV>, raw: i128, i: int) -> Option<int>
    decreases cs.len() - i,
{
    if i < 0 || i >= cs.len() {
        None
    } else if cs[i].value == raw {
        Some(i)
    } else {
        find_value_from(cs, raw, i + 1)
    }
}

/// The index of the first constant whose value is `raw`, where there is
/// one.
pub open spec fn find_value(cs: Seq<ValuedConstV>, raw: i128) -> Option<int> {
    find_value_from(cs, raw, 0)
}

/// What [`find_const_from`] returns: the first matching index, or nothing
/// when no constant from `i` on has the name.
pub proof fn lemma_find_const_from(cs: Seq<ValuedConstV>, name: Seq<char>, i: int)
    requires
        0 <= i <= cs.len(),
    ensures
        match find_const_from(cs, name, i) {
            Some(k) => i <= k < cs.len() && cs[k].name == name && forall|j: int|
                i <= j < k ==> cs[j].name != name,
            None => forall|j: int| i <= j < cs.len() ==> cs[j].name != name,
        },
    decreases cs.len() - i,
{
    if i < cs.len() && cs[i].name != name {
        lemma_find_const_from(cs, name, i + 1);
    }
}

/// What [`find_value_from`] returns: the first matching index, or nothing
/// when no constant from `i` on has the value.
pub proof fn lemma_find_value_from(cs: Seq<ValuedConstV>, raw: i128, i: int)
    requires
        0 <= i <= cs.len(),
    ensures
        match find_value_from(cs, raw, i) {
            Some(k) => i <= k < cs.len() && cs[k].value == raw && forall|j: int|
                i <= j < k ==> cs[j].value != raw,
            None => forall|j: int| i <= j < cs.len() ==> cs[j].value != raw,
        },
    decreases cs.len() - i,
{
    if i < cs.len() && cs[i].value != raw {
        lemma_find_value_from(cs, raw, i + 1);
    }
}

/// The value of the constant named `name`, where one is declared.
pub open spec fn constant_value_spec(cs: Seq<ValuedConstV>, name: Seq<char>) -> Option<i128> {
    match find_const(cs, name) {
        Some(k) => Some(cs[k].value),
        None => None,
    }
}

/// What the synthesized conversion from a name returns: the constant so
/// named, or the name back as an error.
pub open spec fn from_name_spec(cs: Seq<ValuedConstV>, name: Seq<char>) -> Result<
    i128,
    ParseErrorV,
> {
    match find_const(cs, name) {
        Some(k) => Ok(cs[k].value),
        None => Err(ParseErrorV::UnrecognizedString(name)),
    }
}

/// What the synthesized conversion to a name returns: the name of the
/// first constant with this value, or the value back as an error.
pub open spec fn to_name_spec(cs: Seq<ValuedConstV>, raw: i128) -> Result<
    Seq<char>,
    ParseErrorV,
> {
    match find_value(cs, raw) {
        Some(k) => Ok(cs[k].name),
        None => Err(ParseErrorV::UnrecognizedValue(raw)),
    }
}

/// What the synthesized debug formatter renders: the bare name of a
/// matching constant, or the wrapper's name with the raw value in
/// parentheses.
pub open spec fn debug_render_spec(
    wrapper_name: Seq<char>,
    cs: Seq<ValuedConstV>,
    raw: i128,
) -> Seq<char> {
    match find_value(cs, raw) {
        Some(k) => cs[k].name,
        None => wrapper_name + "("@ + dec_i128(raw) + ")"@,
    }
}

/// What the synthesized default value is: the default variant's value, or
/// zero where the declaration had no variants. Nothing only when the
/// recorded name is missing from the table, which a fragment of this
/// library never produces.
pub open spec fn default_value_spec(source: DefaultSourceV, cs: Seq<ValuedConstV>) -> Option<
    i128,
> {
    match source {
        DefaultSourceV::Variant(n) => match find_const(cs, n) {
            Some(k) => Some(cs[k].value),
            None => None,
        },
        DefaultSourceV::Zero => Some(0),
    }
}

/// The textual rendering of a conversion error: the error type's name,
/// what was not recognized, and the offending value or string.
pub open spec fn parse_error_text(error_name: Seq<char>, e: ParseErrorV) -> Seq<char> {
    match e {
        ParseErrorV::UnrecognizedValue(v) => error_name + " Parse Unrecognized value: "@
            + dec_i128(v),
        ParseErrorV::UnrecognizedString(s) => error_name + " Parse Unrecognized string: "@ + s,
    }
}

/// Reduces every table entry to its value, per [`table_values`].
pub fn eval_table(table: &Vec<ConstDecl>) -> (r: Option<Vec<ValuedConst>>)
    ensures
        match r {
            Some(cs) => table_values(table.deep_view()) == Some(cs.deep_view()),
            None => table_values(table.deep_view()) is None,
        },
{
    let ghost t = table.deep_view();
    let mut out: Vec<ValuedConst> = Vec::new();
    assert(Some(out.deep_view()) =~= eval_prefix(t, 0));
    let n = table.len();
    let mut i: usize = 0;
    while i < n
        invariant
            n == table.len(),
            t == table.deep_view(),
            0 <= i <= n,
            Some(out.deep_view()) == eval_prefix(t, i as int),
        decreases n - i,
    {
        assert(t[i as int] == table@[i as int]@);
        let ghost before = out.deep_view();
        let entry = &table[i];
        match entry.expr.evaluate() {
            Some(v) => {
                let valued = ValuedConst { name: entry.name.clone(), value: v };
                assert(valued@ == (ValuedConstV { name: t[i as int].name, value: v }));
                out.push(valued);
                assert(out.deep_view() =~= before.push(
                    ValuedConstV { name: t[i as int].name, value: v },
                ));
            },
            None => {
                proof {
                    lemma_eval_prefix_none(t, i as int, t.len() as int);
                }
                return None;
            },
        }
        i += 1;
    }
    Some(out)
}

/// The constant named `name`, where one is declared: the model of naming
/// a synthesized constant directly.
pub fn constant(cs: &Vec<ValuedConst>, name: &str) -> (r: Option<WrapperValue>)
    ensures
        match r {
            Some(w) => constant_value_spec(cs.deep_view(), name@) == Some(w.raw),
            None => constant_value_spec(cs.deep_view(), name@) is None,
        },
{
    match find_const_index(cs, name) {
        Some(k) => Some(WrapperValue { raw: cs[k].value }),
        None => None,
    }
}

/// The index of the constant named `name`, per [`find_const`].
fn find_const_index(cs: &Vec<ValuedConst>, name: &str) -> (r: Option<usize>)
    ensures
        match r {
            Some(k) => k < cs.len() && find_const(cs.deep_view(), name@) == Some(k as int),
            None => find_const(cs.deep_view(), name@) is None,
        },
{
    let ghost csv = cs.deep_view();
    let n = cs.len();
    let mut i: usize = 0;
    while i < n
        invariant
            n == cs.len(),
            csv == cs.deep_view(),
            0 <= i <= n,
            forall|j: int| 0 <= j < i ==> csv[j].name != name@,
        decreases n - i,
    {
        assert(csv[i as int] == cs@[i as int]@);
        if crate::repr::str_eq(cs[i].name.as_str(), name) {
            proof {
                lemma_find_const_from(csv, name@, 0);
            }
            return Some(i);
        }
        i += 1;
    }
    proof {
        lemma_find_const_from(csv, name@, 0);
    }
    None
}

/// The index of the first constant with value `raw`, per [`find_value`].
fn find_value_index(cs: &Vec<ValuedConst>, raw: i128) -> (r: Option<usize>)
    ensures
        match r {
            Some(k) => k < cs.len() && find_value(cs.deep_view(), raw) == Some(k as int),
            None => find_value(cs.deep_view(), raw) is None,
        },
{
    let ghost csv = cs.deep_view();
    let n = cs.len();
    let mut i: usize = 0;
    while i < n
        invariant
            n == cs.len(),
            csv == cs.deep_view(),
            0 <= i <= n,
            forall|j: int| 0 <= j < i ==> csv[j].value != raw,
        decreases n - i,
    {
        assert(csv[i as int] == cs@[i as int]@);
        if cs[i].value == raw {
            proof {
                lemma_find_value_from(csv, raw, 0);
            }
            return Some(i);
        }
        i += 1;
    }
    proof {
        lemma_find_value_from(csv, raw, 0);
    }
    None
}

/// The synthesized conversion from a name, per [`from_name_spec`]: it
/// fails exactly on names that no constant bears.
pub fn try_from_name(cs: &Vec<ValuedConst>, name: &str) -> (r: Result<WrapperValue, ParseError>)
    ensures
        match r {
            Ok(w) => from_name_spec(cs.deep_view(), name@) == Ok::<i128, ParseErrorV>(w.raw),
            Err(e) => from_name_spec(cs.deep_view(), name@) == Err::<i128, ParseErrorV>(e@),
        },
{
    match find_const_index(cs, name) {
        Some(k) => Ok(WrapperValue { raw: cs[k].value }),
        None => Err(ParseError::UnrecognizedString(name.to_owned())),
    }
}

/// The synthesized conversion to a name, per [`to_name_spec`]: it fails
/// exactly on raw values that no constant has.
pub fn try_to_name(cs: &Vec<ValuedConst>, w: WrapperValue) -> (r: Result<String, ParseError>)
    ensures
        match r {
            Ok(s) => to_name_spec(cs.deep_view(), w.raw) == Ok::<Seq<char>, ParseErrorV>(s@),
            Err(e) => to_name_spec(cs.deep_view(), w.raw) == Err::<Seq<char>, ParseErrorV>(e@),
        },
{
    match find_value_index(cs, w.raw) {
        Some(k) => Ok(cs[k].name.clone()),
        None => Err(ParseError::UnrecognizedValue(w.raw)),
    }
}

/// The synthesized debug formatter, per [`debug_render_spec`].
pub fn render_debug(wrapper_name: &str, cs: &Vec<ValuedConst>, w: WrapperValue) -> (r: String)
    ensures
        r@ == debug_render_spec(wrapper_name@, cs.deep_view(), w.raw),
{
    match find_value_index(cs, w.raw) {
        Some(k) => cs[k].name.clone(),
        None => {
            let mut s = wrapper_name.to_owned();
            proof {
                reveal_strlit("(");
                reveal_strlit(")");
            }
            s.append("(");
            let digits = decimal_string_i128(w.raw);
            s.append(digits.as_str());
            s.append(")");
            assert(s@ =~= wrapper_name@ + "("@ + dec_i128(w.raw) + ")"@);
            s
        },
    }
}

/// The synthesized default value, per [`default_value_spec`].
pub fn default_value(source: &DefaultSource, cs: &Vec<ValuedConst>) -> (r: Option<WrapperValue>)
    ensures
        match r {
            Some(w) => default_value_spec(source@, cs.deep_view()) == Some(w.raw),
            None => default_value_spec(source@, cs.deep_view()) is None,
        },
{
    match source {
        DefaultSource::Variant(n) => match find_const_index(cs, n.as_str()) {
            Some(k) => Some(WrapperValue { raw: cs[k].value }),
            None => None,
        },
        DefaultSource::Zero => Some(WrapperValue { raw: 0 }),
    }
}

/// The textual rendering of a conversion error, per [`parse_error_text`].
pub fn parse_error_message(error_name: &str, e: &ParseError) -> (r: String)
    ensures
        r@ == parse_error_text(error_name@, e@),
{
    let mut s = error_name.to_owned();
    match e {
        ParseError::UnrecognizedValue(v) => {
            proof {
                reveal_strlit(" Parse Unrecognized value: ");
            }
            s.append(" Parse Unrecognized value: ");
            let digits = decimal_string_i128(*v);
            s.append(digits.as_str());
            assert(s@ =~= parse_error_text(error_name@, e@));
        },
        ParseError::UnrecognizedString(text) => {
            proof {
                reveal_strlit(" Parse Unrecognized string: ");
            }
            s.append(" Parse Unrecognized string: ");
            s.append(text.as_str());
            assert(s@ =~= parse_error_text(error_name@, e@));
        },
    }
    s
}

} // verus!
