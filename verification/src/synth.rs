//! Code synthesis.
//!
//! Given the resolved representation, the discriminant table, the default
//! variant and the capability set, the synthesizer assembles the output
//! fragment: the wrapper type, its inherent operations (named constants, a
//! total constructor and a raw-value accessor), the conversion
//! implementations with their error type, a shadow re-declaration of the
//! original shape with all attributes stripped, and, where requested, the
//! debug formatter and the default value. The whole transformation is
//! [`structify`]; it either returns the fragment or the first diagnostic,
//! and emits nothing on failure.

use vstd::prelude::*;

use vstd::string::StringExecFns;

use crate::ast::{Attr, EnumDecl, EnumDeclV, Variant, VariantV};
use crate::classify::{classify, classify_attrs, CapabilitySet};
use crate::diag::{Diagnostic, DiagnosticV};
use crate::discriminant::{assign, assign_discriminants, ConstDecl, ConstDeclV};
use crate::repr::{resolve, resolve_repr, IntTy, ResolvedRepr};

verus! {

/// The synthesized wrapper type: a single-field carrier of the backing
/// type.
pub struct WrapperDecl {
    /// The visibility marker, taken over from the declaration.
    pub vis: String,
    /// The wrapper's name, taken over from the declaration.
    pub name: String,
    /// The type of the single field.
    pub backing: IntTy,
    /// Whether the wrapper's layout is declared ABI-transparent.
    pub transparent: bool,
    /// Residual representation hints, re-emitted verbatim.
    pub residual: Vec<String>,
    /// The derived behaviors: the requested subset of equality, ordering,
    /// hashing, copy and clone, with equality always included so that
    /// constant comparisons behave correctly.
    pub derives: CapabilitySet,
}

/// The mathematical shape of a [`WrapperDecl`].
pub struct WrapperDeclV {
    pub vis: Seq<char>,
    pub name: Seq<char>,
    pub backing: IntTy,
    pub transparent: bool,
    pub residual: Seq<Seq<char>>,
    pub derives: CapabilitySet,
}

impl View for WrapperDecl {
    type V = WrapperDeclV;

    open spec fn view(&self) -> WrapperDeclV {
        WrapperDeclV {
            vis: self.vis.view(),
            name: self.name.view(),
            backing: self.backing,
            transparent: self.transparent,
            residual: self.residual.deep_view(),
            derives: self.derives,
        }
    }
}

/// The wrapper's inherent operations: one named constant per table entry,
/// a total constructor from a raw value, and a raw-value accessor.
pub struct InherentImpl {
    /// The wrapper's name.
    pub wrapper_name: String,
    /// The backing type the constructor takes and the accessor returns.
    pub backing: IntTy,
    /// The named constants, in table order.
    pub constants: Vec<ConstDecl>,
}

/// The mathematical shape of an [`InherentImpl`].
pub struct InherentImplV {
    pub wrapper_name: Seq<char>,
    pub backing: IntTy,
    pub constants: Seq<ConstDeclV>,
}

impl View for InherentImpl {
    type V = InherentImplV;

    open spec fn view(&self) -> InherentImplV {
        InherentImplV {
            wrapper_name: self.wrapper_name.view(),
            backing: self.backing,
            constants: self.constants.deep_view(),
        }
    }
}

/// The conversion implementations: infallible conversions both ways
/// between the wrapper and its raw backing type, fallible conversions both
/// ways between the wrapper and the constant names, and the dedicated
/// error type they return.
pub struct ConvImpl {
    /// The wrapper's name.
    pub wrapper_name: String,
    /// The raw side of the infallible conversions.
    pub backing: IntTy,
    /// The error type's name: the wrapper's name with a fixed suffix.
    pub error_name: String,
    /// The named constants the fallible conversions match against, in
    /// table order.
    pub constants: Vec<ConstDecl>,
}

/// The mathematical shape of a [`ConvImpl`].
pub struct ConvImplV {
    pub wrapper_name: Seq<char>,
    pub backing: IntTy,
    pub error_name: Seq<char>,
    pub constants: Seq<ConstDeclV>,
}

impl View for ConvImpl {
    type V = ConvImplV;

    open spec fn view(&self) -> ConvImplV {
        ConvImplV {
            wrapper_name: self.wrapper_name.view(),
            backing: self.backing,
            error_name: self.error_name.view(),
            constants: self.constants.deep_view(),
        }
    }
}

/// The synthesized debug formatter: it renders a raw value that matches a
/// constant as the bare constant name, and any other raw value as the
/// type name with the value in parentheses.
pub struct DebugImpl {
    /// The wrapper's name, used for the fallback form.
    pub wrapper_name: String,
    /// The named constants checked in turn.
    pub constants: Vec<ConstDecl>,
}

/// The mathematical shape of a [`DebugImpl`].
pub struct DebugImplV {
    pub wrapper_name: Seq<char>,
    pub constants: Seq<ConstDeclV>,
}

impl View for DebugImpl {
    type V = DebugImplV;

    open spec fn view(&self) -> DebugImplV {
        DebugImplV { wrapper_name: self.wrapper_name.view(), constants: self.constants.deep_view() }
    }
}

/// Where the synthesized default value comes from.
pub enum DefaultSource {
    /// The value of the named constant: the default variant.
    Variant(String),
    /// Literal zero: the declaration had no variants.
    Zero,
}

/// The mathematical shape of a [`DefaultSource`].
pub enum DefaultSourceV {
    Variant(Seq<char>),
    Zero,
}

impl View for DefaultSource {
    type V = DefaultSourceV;

    open spec fn view(&self) -> DefaultSourceV {
        match self {
            DefaultSource::Variant(n) => DefaultSourceV::Variant(n.view()),
            DefaultSource::Zero => DefaultSourceV::Zero,
        }
    }
}

/// The synthesized default value.
pub struct DefaultImpl {
    /// The wrapper's name.
    pub wrapper_name: String,
    /// Where the default raw value comes from.
    pub source: DefaultSource,
}

/// The mathematical shape of a [`DefaultImpl`].
pub struct DefaultImplV {
    pub wrapper_name: Seq<char>,
    pub source: DefaultSourceV,
}

impl View for DefaultImpl {
    type V = DefaultImplV;

    open spec fn view(&self) -> DefaultImplV {
        DefaultImplV { wrapper_name: self.wrapper_name.view(), source: self.source.view() }
    }
}

/// The transformation's sole output: the synthesized declarations, emitted
/// in this order: the wrapper type, the inherent operations, the
/// conversions with their error type, the shadow declaration, then the
/// debug formatter and the default value where requested.
pub struct Fragment {
    /// The wrapper type.
    pub wrapper: WrapperDecl,
    /// The inherent operations.
    pub inherent: InherentImpl,
    /// The conversions and their error type.
    pub conversions: ConvImpl,
    /// The original declaration with every attribute stripped, re-declared
    /// in an anonymous scope only so that the downstream compiler flags a
    /// future edit that desynchronizes the declaration from the fragment.
    pub shadow: EnumDecl,
    /// The debug formatter, where debug formatting was requested.
    pub debug: Option<DebugImpl>,
    /// The default value, where one was requested.
    pub default: Option<DefaultImpl>,
}

/// The mathematical shape of a [`Fragment`].
pub struct FragmentV {
    pub wrapper: WrapperDeclV,
    pub inherent: InherentImplV,
    pub conversions: ConvImplV,
    pub shadow: EnumDeclV,
    pub debug: Option<DebugImplV>,
    pub default: Option<DefaultImplV>,
}

impl View for Fragment {
    type V = FragmentV;

    open spec fn view(&self) -> FragmentV {
        FragmentV {
            wrapper: self.wrapper.view(),
            inherent: self.inherent.view(),
            conversions: self.conversions.view(),
            shadow: self.shadow.view(),
            debug: match self.debug {
                Some(d) => Some(d.view()),
                None => None,
            },
            default: match self.default {
                Some(d) => Some(d.view()),
                None => None,
            },
        }
    }
}

/// The derived behaviors of the wrapper: the requested subset of equality,
/// ordering, hashing, copy and clone, with equality always included.
pub open spec fn derive_set(caps: CapabilitySet) -> CapabilitySet {
    CapabilitySet {
        eq: true,
        ord: caps.ord,
        hash: caps.hash,
        copy: caps.copy,
        clone: caps.clone,
        debug: false,
        default: false,
    }
}

/// A variant with its attributes stripped.
pub open spec fn strip_variant(v: VariantV) -> VariantV {
    VariantV { attrs: Seq::empty(), ..v }
}

/// The shadow declaration: the original shape with the declaration's and
/// every variant's attributes stripped.
pub open spec fn shadow_of(d: EnumDeclV) -> EnumDeclV {
    EnumDeclV {
        vis: d.vis,
        name: d.name,
        attrs: Seq::empty(),
        variants: d.variants.map_values(|v: VariantV| strip_variant(v)),
    }
}

/// The suffix of the error type's name.
pub open spec fn error_name_of(name: Seq<char>) -> Seq<char> {
    name + "ParseError"@
}

/// What the whole transformation returns on a declaration: the fragment,
/// assembled from the classified attributes, the resolved representation
/// and the discriminant table, or the first diagnostic of the first
/// failing stage.
pub open spec fn structify_spec(d: EnumDeclV) -> Result<FragmentV, DiagnosticV> {
    match classify(d.attrs) {
        Err(diag) => Err(diag),
        Ok((hints, caps)) => match resolve(hints) {
            Err(diag) => Err(diag),
            Ok(rr) => match assign(d.variants) {
                Err(diag) => Err(diag),
                Ok((table, dflt)) => Ok(
                    FragmentV {
                        wrapper: WrapperDeclV {
                            vis: d.vis,
                            name: d.name,
                            backing: rr.backing,
                            transparent: rr.transparent,
                            residual: rr.residual,
                            derives: derive_set(caps),
                        },
                        inherent: InherentImplV {
                            wrapper_name: d.name,
                            backing: rr.backing,
                            constants: table,
                        },
                        conversions: ConvImplV {
                            wrapper_name: d.name,
                            backing: rr.backing,
                            error_name: error_name_of(d.name),
                            constants: table,
                        },
                        shadow: shadow_of(d),
                        debug: if caps.debug {
                            Some(DebugImplV { wrapper_name: d.name, constants: table })
                        } else {
                            None
                        },
                        default: if caps.default {
                            Some(
                                DefaultImplV {
                                    wrapper_name: d.name,
                                    source: match dflt {
                                        Some(n) => DefaultSourceV::Variant(n),
                                        None => DefaultSourceV::Zero,
                                    },
                                },
                            )
                        } else {
                            None
                        },
                    },
                ),
            },
        },
    }
}

/// A structurally equal copy of a constant table.
fn clone_table(table: &Vec<ConstDecl>) -> (r: Vec<ConstDecl>)
    ensures
        r.deep_view() == table.deep_view(),
{
    let ghost t = table.deep_view();
    let mut out: Vec<ConstDecl> = Vec::new();
    assert(out.deep_view() =~= t.take(0));
    let n = table.len();
    let mut i: usize = 0;
    while i < n
        invariant
            n == table.len(),
            t == table.deep_view(),
            0 <= i <= n,
            out.deep_view() == t.take(i as int),
        decreases n - i,
    {
        assert(t[i as int] == table@[i as int]@);
        let ghost before = out.deep_view();
        let entry = &table[i];
        let copied = ConstDecl { name: entry.name.clone(), expr: entry.expr.duplicate() };
        assert(copied@ == t[i as int]);
        out.push(copied);
        assert(out.deep_view() =~= before.push(t[i as int]));
        assert(out.deep_view() =~= t.take(i as int + 1));
        i += 1;
    }
    assert(out.deep_view() =~= t);
    out
}

/// The shadow declaration of the input, per [`shadow_of`].
fn shadow_decl(decl: &EnumDecl) -> (r: EnumDecl)
    ensures
        r@ == shadow_of(decl@),
{
    let ghost vs = decl.variants.deep_view();
    let mut variants: Vec<Variant> = Vec::new();
    assert(variants.deep_view() =~= vs.take(0).map_values(|v: VariantV| strip_variant(v)));
    let n = decl.variants.len();
    let mut i: usize = 0;
    while i < n
        invariant
            n == decl.variants.len(),
            vs == decl.variants.deep_view(),
            0 <= i <= n,
            variants.deep_view() == vs.take(i as int).map_values(
                |v: VariantV| strip_variant(v),
            ),
        decreases n - i,
    {
        assert(vs[i as int] == decl.variants@[i as int]@);
        let ghost before = variants.deep_view();
        let v = &decl.variants[i];
        let attrs: Vec<Attr> = Vec::new();
        assert(attrs.deep_view() =~= Seq::<crate::ast::AttrV>::empty());
        let stripped = Variant {
            name: v.name.clone(),
            shape: v.shape,
            discriminant: match &v.discriminant {
                Some(e) => Some(e.duplicate()),
                None => None,
            },
            attrs,
        };
        assert(stripped@ == strip_variant(vs[i as int]));
        variants.push(stripped);
        assert(variants.deep_view() =~= before.push(strip_variant(vs[i as int])));
        assert(variants.deep_view() =~= vs.take(i as int + 1).map_values(
            |v: VariantV| strip_variant(v),
        ));
        i += 1;
    }
    assert(variants.deep_view() =~= vs.map_values(|v: VariantV| strip_variant(v)));
    let attrs: Vec<Attr> = Vec::new();
    assert(attrs.deep_view() =~= Seq::<crate::ast::AttrV>::empty());
    EnumDecl { vis: decl.vis.clone(), name: decl.name.clone(), attrs, variants }
}

/// Transforms a declaration into its fragment, per [`structify_spec`]:
/// attribute classification, representation resolution and discriminant
/// assignment each abort with their first diagnostic, and on success the
/// fragment is assembled from their results.
pub fn structify(decl: &EnumDecl) -> (r: Result<Fragment, Diagnostic>)
    ensures
        match r {
            Ok(f) => structify_spec(decl@) == Ok::<FragmentV, DiagnosticV>(f@),
            Err(d) => structify_spec(decl@) == Err::<FragmentV, DiagnosticV>(d@),
        },
{
    let (hints, caps) = match classify_attrs(&decl.attrs) {
        Ok(hc) => hc,
        Err(d) => {
            return Err(d);
        },
    };
    let rr = match resolve_repr(&hints) {
        Ok(rr) => rr,
        Err(d) => {
            return Err(d);
        },
    };
    let (table, dflt) = match assign_discriminants(&decl.variants) {
        Ok(td) => td,
        Err(d) => {
            return Err(d);
        },
    };
    let ResolvedRepr { backing, transparent, residual } = rr;
    let wrapper = WrapperDecl {
        vis: decl.vis.clone(),
        name: decl.name.clone(),
        backing,
        transparent,
        residual,
        derives: CapabilitySet {
            eq: true,
            ord: caps.ord,
            hash: caps.hash,
            copy: caps.copy,
            clone: caps.clone,
            debug: false,
            default: false,
        },
    };
    let inherent = InherentImpl {
        wrapper_name: decl.name.clone(),
        backing,
        constants: clone_table(&table),
    };
    let conversions = ConvImpl {
        wrapper_name: decl.name.clone(),
        backing,
        error_name: decl.name.clone().concat("ParseError"),
        constants: clone_table(&table),
    };
    let shadow = shadow_decl(decl);
    let debug = if caps.debug {
        Some(DebugImpl { wrapper_name: decl.name.clone(), constants: table })
    } else {
        None
    };
    let default = if caps.default {
        Some(
            DefaultImpl {
                wrapper_name: decl.name.clone(),
                source: match dflt {
                    Some(n) => DefaultSource::Variant(n),
                    None => DefaultSource::Zero,
                },
            },
        )
    } else {
        None
    };
    Ok(Fragment { wrapper, inherent, conversions, shadow, debug, default })
}

} // verus!
