//! Discriminant expressions.
//!
//! A variant's discriminant is an integer-valued expression, not necessarily
//! a literal: the upstream parser hands over literals, sums and shifts it
//! recognized, and anything else verbatim as an opaque leaf. The engine in
//! [`crate::discriminant`] threads a running value through the variant list
//! as a symbolic successor expression, folding eagerly where the value is a
//! literal.

use vstd::prelude::*;

verus! {

/// An integer-valued compile-time expression, as delivered by the upstream
/// parser or built by the assignment engine.
pub enum Expr {
    /// An integer literal, already reduced to its value.
    Lit(i128),
    /// The sum of two subexpressions.
    Add(Box<Expr>, Box<Expr>),
    /// The left subexpression shifted left by the right one.
    Shl(Box<Expr>, Box<Expr>),
    /// Any other expression, kept verbatim as source text; its value is
    /// known only to the downstream compiler.
    Opaque(String),
}

/// The mathematical shape of an [`Expr`]: the same tree with the opaque
/// source text abstracted to a sequence of characters.
pub enum ExprV {
    Lit(i128),
    Add(Box<ExprV>, Box<ExprV>),
    Shl(Box<ExprV>, Box<ExprV>),
    Opaque(Seq<char>),
}

/// The view of an [`Expr`], as a free function so that it can recurse.
pub open spec fn expr_view(e: Expr) -> ExprV
    decreases e,
{
    match e {
        Expr::Lit(n) => ExprV::Lit(n),
        Expr::Add(a, b) => ExprV::Add(Box::new(expr_view(*a)), Box::new(expr_view(*b))),
        Expr::Shl(a, b) => ExprV::Shl(Box::new(expr_view(*a)), Box::new(expr_view(*b))),
        Expr::Opaque(s) => ExprV::Opaque(s.view()),
    }
}

impl View for Expr {
    type V = ExprV;

    open spec fn view(&self) -> ExprV {
        expr_view(*self)
    }
}

/// The value of an expression, where it has one: `None` stands both for an
/// opaque leaf and for a value outside the backing-type model's range. The
/// model evaluates in 128-bit signed arithmetic; a shift is defined for
/// shift amounts in `0 .. 128`, exactly as the downstream compiler would
/// compute it on the widest supported backing type.
pub open spec fn eval(e: ExprV) -> Option<i128>
    decreases e,
{
    match e {
        ExprV::Lit(n) => Some(n),
        ExprV::Add(a, b) => match (eval(*a), eval(*b)) {
            (Some(x), Some(y)) => {
                if i128::MIN <= x + y <= i128::MAX {
                    Some((x + y) as i128)
                } else {
                    None
                }
            },
            _ => None,
        },
        ExprV::Shl(a, b) => match (eval(*a), eval(*b)) {
            (Some(x), Some(y)) => {
                if 0 <= y < 128 {
                    Some(x << y)
                } else {
                    None
                }
            },
            _ => None,
        },
        ExprV::Opaque(_) => None,
    }
}

/// The symbolic successor of an expression: a literal is folded in place
/// where the increment stays in range; everything else becomes an explicit
/// `e + 1` node.
pub open spec fn succ(e: ExprV) -> ExprV {
    match e {
        ExprV::Lit(n) => {
            if n < i128::MAX {
                ExprV::Lit((n + 1) as i128)
            } else {
                ExprV::Add(Box::new(e), Box::new(ExprV::Lit(1)))
            }
        },
        _ => ExprV::Add(Box::new(e), Box::new(ExprV::Lit(1))),
    }
}

impl Expr {
    /// A structurally equal copy.
    pub fn duplicate(&self) -> (r: Expr)
        ensures
            r@ == self@,
        decreases self,
    {
        match self {
            Expr::Lit(n) => Expr::Lit(*n),
            Expr::Add(a, b) => Expr::Add(Box::new(a.duplicate()), Box::new(b.duplicate())),
            Expr::Shl(a, b) => Expr::Shl(Box::new(a.duplicate()), Box::new(b.duplicate())),
            Expr::Opaque(s) => Expr::Opaque(s.clone()),
        }
    }

    /// The expression's value under [`eval`].
    pub fn evaluate(&self) -> (r: Option<i128>)
        ensures
            r == eval(self@),
        decreases self,
    {
        match self {
            Expr::Lit(n) => Some(*n),
            Expr::Add(a, b) => match (a.evaluate(), b.evaluate()) {
                (Some(x), Some(y)) => checked_add_i128(x, y),
                _ => None,
            },
            Expr::Shl(a, b) => match (a.evaluate(), b.evaluate()) {
                (Some(x), Some(y)) => {
                    if 0 <= y && y < 128 {
                        Some(x << y)
                    } else {
                        None
                    }
                },
                _ => None,
            },
            Expr::Opaque(_) => None,
        }
    }

    /// The symbolic successor, per [`succ`].
    pub fn successor(self) -> (r: Expr)
        ensures
            r@ == succ(self@),
    {
        proof {
            reveal_with_fuel(expr_view, 3);
        }
        match self {
            Expr::Lit(n) => {
                if n < i128::MAX {
                    Expr::Lit(n + 1)
                } else {
                    Expr::Add(Box::new(Expr::Lit(n)), Box::new(Expr::Lit(1)))
                }
            },
            e => Expr::Add(Box::new(e), Box::new(Expr::Lit(1))),
        }
    }
}

/// `x + y` where the sum stays in range, `None` otherwise.
fn checked_add_i128(x: i128, y: i128) -> (r: Option<i128>)
    ensures
        r == if i128::MIN <= x + y <= i128::MAX {
            Some((x + y) as i128)
        } else {
            None::<i128>
        },
{
    if y >= 0 {
        if x <= i128::MAX - y {
            Some(x + y)
        } else {
            None
        }
    } else {
        if x >= i128::MIN - y {
            Some(x + y)
        } else {
            None
        }
    }
}

} // verus!
