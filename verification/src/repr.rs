//! Representation resolution.
//!
//! The accumulated representation-hint tokens select exactly one backing
//! integer type, or fall back to the default (32-bit signed). A
//! `transparent` marker is recorded but selects no type of its own; when it
//! is present, a type hint is still consumed but the backing type stays at
//! the default. A second type hint is a conflict. Every other token is kept
//! verbatim as a residual hint for the synthesized wrapper.

use vstd::prelude::*;

use crate::diag::{Diagnostic, DiagnosticV};

verus! {

/// The twelve supported backing integer types.
#[derive(PartialEq, Eq, Structural, Clone, Copy, Debug)]
pub enum IntTy {
    I8,
    U8,
    I16,
    U16,
    I32,
    U32,
    I64,
    U64,
    I128,
    U128,
    Isize,
    Usize,
}

/// The backing type named by a hint token, where it names one.
pub open spec fn int_ty_of(t: Seq<char>) -> Option<IntTy> {
    if t == "i8"@ {
        Some(IntTy::I8)
    } else if t == "u8"@ {
        Some(IntTy::U8)
    } else if t == "i16"@ {
        Some(IntTy::I16)
    } else if t == "u16"@ {
        Some(IntTy::U16)
    } else if t == "i32"@ {
        Some(IntTy::I32)
    } else if t == "u32"@ {
        Some(IntTy::U32)
    } else if t == "i64"@ {
        Some(IntTy::I64)
    } else if t == "u64"@ {
        Some(IntTy::U64)
    } else if t == "i128"@ {
        Some(IntTy::I128)
    } else if t == "u128"@ {
        Some(IntTy::U128)
    } else if t == "isize"@ {
        Some(IntTy::Isize)
    } else if t == "usize"@ {
        Some(IntTy::Usize)
    } else {
        None
    }
}

/// Whether a hint token names a backing type.
pub open spec fn is_type_token(t: Seq<char>) -> bool {
    int_ty_of(t) is Some
}

/// Whether a hint token is the transparent marker.
pub open spec fn is_transparent_token(t: Seq<char>) -> bool {
    t == "transparent"@
}

/// Whether the transparent marker occurs anywhere in the hint list.
pub open spec fn has_transparent(tokens: Seq<Seq<char>>) -> bool {
    exists|i: int| 0 <= i < tokens.len() && is_transparent_token(tokens[i])
}

/// How many of the first `n` hint tokens name a backing type.
pub open spec fn type_count(tokens: Seq<Seq<char>>, n: int) -> int
    decreases n,
{
    if n <= 0 {
        0
    } else {
        type_count(tokens, n - 1) + if is_type_token(tokens[n - 1]) {
            1int
        } else {
            0int
        }
    }
}

/// The first backing type named among the first `n` hint tokens.
pub open spec fn first_type(tokens: Seq<Seq<char>>, n: int) -> Option<IntTy>
    decreases n,
{
    if n <= 0 {
        None
    } else if first_type(tokens, n - 1) is Some {
        first_type(tokens, n - 1)
    } else if is_type_token(tokens[n - 1]) {
        int_ty_of(tokens[n - 1])
    } else {
        None
    }
}

/// The residual hints among the first `n` tokens: those that neither name a
/// backing type nor are the transparent marker, in order.
pub open spec fn residual_of(tokens: Seq<Seq<char>>, n: int) -> Seq<Seq<char>>
    decreases n,
{
    if n <= 0 {
        Seq::empty()
    } else if is_type_token(tokens[n - 1]) || is_transparent_token(tokens[n - 1]) {
        residual_of(tokens, n - 1)
    } else {
        residual_of(tokens, n - 1).push(tokens[n - 1])
    }
}

/// The resolved representation: the backing type of the wrapper's single
/// field, whether the wrapper's layout must be declared transparent, and
/// the residual hints to re-emit on it.
pub struct ResolvedRepr {
    /// The backing integer type.
    pub backing: IntTy,
    /// Whether the wrapper must be ABI-transparent: true when the backing
    /// type was selected by an explicit hint, and when the transparent
    /// marker itself was written.
    pub transparent: bool,
    /// The hint tokens preserved verbatim for the wrapper.
    pub residual: Vec<String>,
}

/// The mathematical shape of a [`ResolvedRepr`].
pub struct ResolvedReprV {
    pub backing: IntTy,
    pub transparent: bool,
    pub residual: Seq<Seq<char>>,
}

impl View for ResolvedRepr {
    type V = ResolvedReprV;

    open spec fn view(&self) -> ResolvedReprV {
        ResolvedReprV {
            backing: self.backing,
            transparent: self.transparent,
            residual: self.residual.deep_view(),
        }
    }
}

/// What representation resolution returns on a given hint list: a conflict
/// as soon as a second type hint appears; otherwise the backing type named
/// by the single type hint, unless the transparent marker silences it, with
/// the default being 32-bit signed.
pub open spec fn resolve(tokens: Seq<Seq<char>>) -> Result<ResolvedReprV, DiagnosticV> {
    let n = tokens.len() as int;
    if type_count(tokens, n) >= 2 {
        Err(DiagnosticV::ConflictingRepresentation)
    } else {
        Ok(
            ResolvedReprV {
                backing: if has_transparent(tokens) {
                    IntTy::I32
                } else {
                    match first_type(tokens, n) {
                        Some(ty) => ty,
                        None => IntTy::I32,
                    }
                },
                transparent: has_transparent(tokens) || type_count(tokens, n) == 1,
                residual: residual_of(tokens, n),
            },
        )
    }
}

/// The type-hint count never shrinks as the scanned prefix grows.
proof fn lemma_type_count_monotone(tokens: Seq<Seq<char>>, n: int, m: int)
    requires
        n <= m,
    ensures
        type_count(tokens, n) <= type_count(tokens, m),
    decreases m - n,
{
    if n < m {
        lemma_type_count_monotone(tokens, n, m - 1);
    }
}

/// A type hint has been seen exactly when one was adopted.
pub proof fn lemma_first_type_count(tokens: Seq<Seq<char>>, n: int)
    ensures
        type_count(tokens, n) >= 0,
        (first_type(tokens, n) is Some) <==> (type_count(tokens, n) >= 1),
    decreases n,
{
    if n > 0 {
        lemma_first_type_count(tokens, n - 1);
    }
}

/// Whether two strings hold the same characters.
pub fn str_eq(a: &str, b: &str) -> (r: bool)
    ensures
        r == (a@ == b@),
{
    let owned_a = a.to_owned();
    let owned_b = b.to_owned();
    owned_a == owned_b
}

/// The backing type a hint token names, per [`int_ty_of`].
pub fn recognize_int_ty(t: &String) -> (r: Option<IntTy>)
    ensures
        r == int_ty_of(t@),
{
    let s = t.as_str();
    if str_eq(s, "i8") {
        Some(IntTy::I8)
    } else if str_eq(s, "u8") {
        Some(IntTy::U8)
    } else if str_eq(s, "i16") {
        Some(IntTy::I16)
    } else if str_eq(s, "u16") {
        Some(IntTy::U16)
    } else if str_eq(s, "i32") {
        Some(IntTy::I32)
    } else if str_eq(s, "u32") {
        Some(IntTy::U32)
    } else if str_eq(s, "i64") {
        Some(IntTy::I64)
    } else if str_eq(s, "u64") {
        Some(IntTy::U64)
    } else if str_eq(s, "i128") {
        Some(IntTy::I128)
    } else if str_eq(s, "u128") {
        Some(IntTy::U128)
    } else if str_eq(s, "isize") {
        Some(IntTy::Isize)
    } else if str_eq(s, "usize") {
        Some(IntTy::Usize)
    } else {
        None
    }
}

/// Resolves the accumulated hint tokens, per [`resolve`].
pub fn resolve_repr(tokens: &Vec<String>) -> (r: Result<ResolvedRepr, Diagnostic>)
    ensures
        match r {
            Ok(rr) => resolve(tokens.deep_view()) == Ok::<ResolvedReprV, DiagnosticV>(rr@),
            Err(d) => resolve(tokens.deep_view()) == Err::<ResolvedReprV, DiagnosticV>(d@),
        },
{
    let ghost toks = tokens.deep_view();
    let n = tokens.len();

    // First pass: is the transparent marker present anywhere?
    let mut transp = false;
    let mut i: usize = 0;
    while i < n
        invariant
            n == tokens.len(),
            toks == tokens.deep_view(),
            0 <= i <= n,
            transp == exists|j: int| 0 <= j < i && is_transparent_token(toks[j]),
        decreases n - i,
    {
        assert(toks[i as int] == tokens@[i as int]@);
        if str_eq(tokens[i].as_str(), "transparent") {
            transp = true;
            assert(is_transparent_token(toks[i as int]));
        } else {
            assert(!is_transparent_token(toks[i as int]));
        }
        i += 1;
    }
    assert(transp == has_transparent(toks));

    // Second pass: adopt the first type hint, refuse a second one, and keep
    // every other token (but the transparent marker) as residual.
    let mut seen_type = false;
    let mut chosen: Option<IntTy> = None;
    let mut residual: Vec<String> = Vec::new();
    let mut i: usize = 0;
    while i < n
        invariant
            n == tokens.len(),
            toks == tokens.deep_view(),
            0 <= i <= n,
            transp == has_transparent(toks),
            seen_type == (type_count(toks, i as int) == 1),
            type_count(toks, i as int) <= 1,
            chosen == if transp {
                None::<IntTy>
            } else {
                first_type(toks, i as int)
            },
            residual.deep_view() == residual_of(toks, i as int),
        decreases n - i,
    {
        let token = &tokens[i];
        assert(toks[i as int] == token@);
        proof {
            lemma_first_type_count(toks, i as int);
        }
        match recognize_int_ty(token) {
            Some(ty) => {
                if seen_type {
                    proof {
                        lemma_type_count_monotone(toks, i as int + 1, n as int);
                    }
                    return Err(Diagnostic::ConflictingRepresentation);
                }
                seen_type = true;
                if !transp {
                    chosen = Some(ty);
                }
            },
            None => {
                if !str_eq(token.as_str(), "transparent") {
                    residual.push(token.clone());
                    assert(residual.deep_view() =~= residual_of(toks, i as int + 1));
                }
            },
        }
        i += 1;
    }

    let backing = match chosen {
        Some(ty) => ty,
        None => IntTy::I32,
    };
    Ok(
        ResolvedRepr {
            backing,
            transparent: transp || seen_type,
            residual,
        },
    )
}

} // verus!
