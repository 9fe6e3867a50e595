//! The abstract input model: an enumeration declaration as delivered by the
//! upstream parser.
//!
//! The transformer assumes the declaration's syntactic validity was checked
//! upstream and enforces only the semantic rules of the pipeline stages.

use vstd::prelude::*;

use crate::expr::{expr_view, Expr, ExprV};

verus! {

/// One attribute of the declaration or of a variant, already tagged by the
/// upstream parser.
pub enum Attr {
    /// A representation hint: a comma-separated payload of hint tokens,
    /// each kept as its source text (for example a type name, the
    /// transparent marker, or an alignment hint).
    Repr(Vec<String>),
    /// A capability request: the requested capability names.
    Derive(Vec<String>),
    /// A conditional-compilation marker, assumed already resolved upstream;
    /// it is passed through silently.
    Cfg,
    /// Any other attribute; a hard error wherever it appears.
    Other,
}

/// The mathematical shape of an [`Attr`].
pub enum AttrV {
    Repr(Seq<Seq<char>>),
    Derive(Seq<Seq<char>>),
    Cfg,
    Other,
}

impl View for Attr {
    type V = AttrV;

    open spec fn view(&self) -> AttrV {
        match self {
            Attr::Repr(tokens) => AttrV::Repr(tokens.deep_view()),
            Attr::Derive(names) => AttrV::Derive(names.deep_view()),
            Attr::Cfg => AttrV::Cfg,
            Attr::Other => AttrV::Other,
        }
    }
}

impl DeepView for Attr {
    type V = AttrV;

    open spec fn deep_view(&self) -> AttrV {
        self.view()
    }
}

/// Whether a variant is a bare symbol or carries data.
#[derive(PartialEq, Eq, Structural, Clone, Copy, Debug)]
pub enum VariantShape {
    /// A bare symbolic variant.
    Unit,
    /// A variant with a payload; rejected by the assignment engine.
    Data,
}

/// One variant of the declaration.
pub struct Variant {
    /// The variant's name.
    pub name: String,
    /// Whether the variant carries data.
    pub shape: VariantShape,
    /// The explicit discriminant expression, where one was written.
    pub discriminant: Option<Expr>,
    /// The variant's own attributes; only conditional markers are legal.
    pub attrs: Vec<Attr>,
}

/// The mathematical shape of a [`Variant`].
pub struct VariantV {
    pub name: Seq<char>,
    pub shape: VariantShape,
    pub discriminant: Option<ExprV>,
    pub attrs: Seq<AttrV>,
}

impl View for Variant {
    type V = VariantV;

    open spec fn view(&self) -> VariantV {
        VariantV {
            name: self.name.view(),
            shape: self.shape,
            discriminant: match self.discriminant {
                Some(e) => Some(expr_view(e)),
                None => None,
            },
            attrs: self.attrs.deep_view(),
        }
    }
}

impl DeepView for Variant {
    type V = VariantV;

    open spec fn deep_view(&self) -> VariantV {
        self.view()
    }
}

/// The whole input declaration: name, visibility marker, attributes and the
/// ordered variant list.
pub struct EnumDecl {
    /// The visibility marker, verbatim (for example `pub`, or empty for an
    /// inherited visibility); passed through to the wrapper unread.
    pub vis: String,
    /// The declaration's name; the wrapper type takes it over.
    pub name: String,
    /// The declaration's attributes.
    pub attrs: Vec<Attr>,
    /// The variants, in declaration order.
    pub variants: Vec<Variant>,
}

/// The mathematical shape of an [`EnumDecl`].
pub struct EnumDeclV {
    pub vis: Seq<char>,
    pub name: Seq<char>,
    pub attrs: Seq<AttrV>,
    pub variants: Seq<VariantV>,
}

impl View for EnumDecl {
    type V = EnumDeclV;

    open spec fn view(&self) -> EnumDeclV {
        EnumDeclV {
            vis: self.vis.view(),
            name: self.name.view(),
            attrs: self.attrs.deep_view(),
            variants: self.variants.deep_view(),
        }
    }
}

} // verus!
