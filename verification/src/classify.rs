//! Attribute classification.
//!
//! The declaration's attributes split into representation-hint payloads,
//! which are accumulated in order, and capability requests, which are
//! checked against a fixed vocabulary and folded into a capability set.
//! Conditional markers pass through silently; everything else is a hard
//! error.

use vstd::prelude::*;

use crate::ast::{Attr, AttrV};
use crate::diag::{Diagnostic, DiagnosticV};
use crate::repr::str_eq;

verus! {

/// The fixed capability vocabulary: the derivable behaviors a declaration
/// may request.
#[derive(PartialEq, Eq, Structural, Clone, Copy, Debug)]
pub enum CapKind {
    /// Equality comparison.
    Eq,
    /// Ordering comparison.
    Ord,
    /// Hashing.
    Hash,
    /// Copy semantics.
    Copy,
    /// Clone semantics.
    Clone,
    /// Debug formatting, re-implemented rather than derived.
    Debug,
    /// A default value, re-implemented rather than derived.
    Default,
}

/// The set of requested capabilities.
#[derive(PartialEq, Eq, Structural, Clone, Copy, Debug)]
pub struct CapabilitySet {
    /// Equality comparison was requested.
    pub eq: bool,
    /// Ordering comparison was requested.
    pub ord: bool,
    /// Hashing was requested.
    pub hash: bool,
    /// Copy semantics were requested.
    pub copy: bool,
    /// Clone semantics were requested.
    pub clone: bool,
    /// Debug formatting was requested.
    pub debug: bool,
    /// A default value was requested.
    pub default: bool,
}

impl CapabilitySet {
    /// The empty set: nothing requested.
    pub fn empty() -> (r: CapabilitySet)
        ensures
            r == (CapabilitySet {
                eq: false,
                ord: false,
                hash: false,
                copy: false,
                clone: false,
                debug: false,
                default: false,
            }),
    {
        CapabilitySet {
            eq: false,
            ord: false,
            hash: false,
            copy: false,
            clone: false,
            debug: false,
            default: false,
        }
    }
}

/// The capability a request name stands for, where it names one. Both
/// halves of an equality or ordering pair request the same capability.
pub open spec fn cap_of_name(n: Seq<char>) -> Option<CapKind> {
    if n == "Clone"@ {
        Some(CapKind::Clone)
    } else if n == "Copy"@ {
        Some(CapKind::Copy)
    } else if n == "Eq"@ || n == "PartialEq"@ {
        Some(CapKind::Eq)
    } else if n == "Ord"@ || n == "PartialOrd"@ {
        Some(CapKind::Ord)
    } else if n == "Hash"@ {
        Some(CapKind::Hash)
    } else if n == "Debug"@ {
        Some(CapKind::Debug)
    } else if n == "Default"@ {
        Some(CapKind::Default)
    } else {
        None
    }
}

/// The set with one capability switched on.
pub open spec fn with_cap(caps: CapabilitySet, kind: CapKind) -> CapabilitySet {
    match kind {
        CapKind::Eq => CapabilitySet { eq: true, ..caps },
        CapKind::Ord => CapabilitySet { ord: true, ..caps },
        CapKind::Hash => CapabilitySet { hash: true, ..caps },
        CapKind::Copy => CapabilitySet { copy: true, ..caps },
        CapKind::Clone => CapabilitySet { clone: true, ..caps },
        CapKind::Debug => CapabilitySet { debug: true, ..caps },
        CapKind::Default => CapabilitySet { default: true, ..caps },
    }
}

/// Folds the request names from position `i` on into the capability set;
/// the first name outside the vocabulary is the error.
pub open spec fn apply_names(
    names: Seq<Seq<char>>,
    i: int,
    caps: CapabilitySet,
) -> Result<CapabilitySet, DiagnosticV>
    decreases names.len() - i,
{
    if i < 0 || i >= names.len() {
        Ok(caps)
    } else {
        match cap_of_name(names[i]) {
            Some(kind) => apply_names(names, i + 1, with_cap(caps, kind)),
            None => Err(DiagnosticV::UnsupportedCapability(names[i])),
        }
    }
}

/// Classifies the attributes from position `i` on, given the hints and
/// capabilities accumulated so far; the first unsupported attribute or
/// capability is the error.
pub open spec fn classify_loop(
    attrs: Seq<AttrV>,
    i: int,
    hints: Seq<Seq<char>>,
    caps: CapabilitySet,
) -> Result<(Seq<Seq<char>>, CapabilitySet), DiagnosticV>
    decreases attrs.len() - i,
{
    if i < 0 || i >= attrs.len() {
        Ok((hints, caps))
    } else {
        match attrs[i] {
            AttrV::Cfg => classify_loop(attrs, i + 1, hints, caps),
            AttrV::Repr(tokens) => classify_loop(attrs, i + 1, hints + tokens, caps),
            AttrV::Derive(names) => match apply_names(names, 0, caps) {
                Ok(caps2) => classify_loop(attrs, i + 1, hints, caps2),
                Err(d) => Err(d),
            },
            AttrV::Other => Err(DiagnosticV::UnsupportedAttribute),
        }
    }
}

/// What attribute classification returns on a declaration's attribute
/// list: the representation-hint tokens in order of appearance, and the
/// set of requested capabilities.
pub open spec fn classify(attrs: Seq<AttrV>) -> Result<
    (Seq<Seq<char>>, CapabilitySet),
    DiagnosticV,
> {
    classify_loop(
        attrs,
        0,
        Seq::empty(),
        CapabilitySet {
            eq: false,
            ord: false,
            hash: false,
            copy: false,
            clone: false,
            debug: false,
            default: false,
        },
    )
}

/// The capability a request name stands for, per [`cap_of_name`].
pub fn recognize_cap(n: &String) -> (r: Option<CapKind>)
    ensures
        r == cap_of_name(n@),
{
    let s = n.as_str();
    if str_eq(s, "Clone") {
        Some(CapKind::Clone)
    } else if str_eq(s, "Copy") {
        Some(CapKind::Copy)
    } else if str_eq(s, "Eq") || str_eq(s, "PartialEq") {
        Some(CapKind::Eq)
    } else if str_eq(s, "Ord") || str_eq(s, "PartialOrd") {
        Some(CapKind::Ord)
    } else if str_eq(s, "Hash") {
        Some(CapKind::Hash)
    } else if str_eq(s, "Debug") {
        Some(CapKind::Debug)
    } else if str_eq(s, "Default") {
        Some(CapKind::Default)
    } else {
        None
    }
}

/// Splits the declaration's attributes into representation hints and a
/// capability set, per [`classify`].
pub fn classify_attrs(attrs: &Vec<Attr>) -> (r: Result<(Vec<String>, CapabilitySet), Diagnostic>)
    ensures
        match r {
            Ok(hc) => classify(attrs.deep_view()) == Ok::<_, DiagnosticV>(
                (hc.0.deep_view(), hc.1),
            ),
            Err(d) => classify(attrs.deep_view()) == Err::<(Seq<Seq<char>>, CapabilitySet), _>(
                d@,
            ),
        },
{
    let ghost avs = attrs.deep_view();
    let mut hints: Vec<String> = Vec::new();
    let mut caps = CapabilitySet::empty();
    assert(hints.deep_view() =~= Seq::<Seq<char>>::empty());
    let n = attrs.len();
    let mut i: usize = 0;
    while i < n
        invariant
            n == attrs.len(),
            avs == attrs.deep_view(),
            0 <= i <= n,
            classify_loop(avs, i as int, hints.deep_view(), caps) == classify(avs),
        decreases n - i,
    {
        assert(avs[i as int] == attrs@[i as int]@);
        match &attrs[i] {
            Attr::Cfg => {},
            Attr::Repr(tokens) => {
                assert(avs[i as int] == AttrV::Repr(tokens.deep_view()));
                let ghost hints0 = hints.deep_view();
                let m = tokens.len();
                let mut j: usize = 0;
                while j < m
                    invariant
                        m == tokens.len(),
                        0 <= j <= m,
                        hints.deep_view() == hints0 + tokens.deep_view().take(j as int),
                    decreases m - j,
                {
                    let ghost before = hints.deep_view();
                    let cloned = tokens[j].clone();
                    assert(cloned.deep_view() == tokens.deep_view()[j as int]);
                    hints.push(cloned);
                    assert(hints.deep_view() =~= before.push(tokens.deep_view()[j as int]));
                    assert(hints.deep_view() =~= hints0 + tokens.deep_view().take(j as int + 1));
                    j += 1;
                }
                assert(hints.deep_view() =~= hints0 + tokens.deep_view());
            },
            Attr::Derive(names) => {
                assert(avs[i as int] == AttrV::Derive(names.deep_view()));
                let ghost nvs = names.deep_view();
                let ghost caps0 = caps;
                let m = names.len();
                let mut j: usize = 0;
                while j < m
                    invariant
                        m == names.len(),
                        nvs == names.deep_view(),
                        0 <= j <= m,
                        apply_names(nvs, j as int, caps) == apply_names(nvs, 0, caps0),
                        avs == attrs.deep_view(),
                        0 <= i < avs.len(),
                        avs[i as int] == AttrV::Derive(nvs),
                        classify_loop(avs, i as int, hints.deep_view(), caps0) == classify(avs),
                    decreases m - j,
                {
                    assert(nvs[j as int] == names@[j as int]@);
                    match recognize_cap(&names[j]) {
                        Some(kind) => {
                            caps = apply_cap(caps, kind);
                        },
                        None => {
                            let offending = names[j].clone();
                            assert(apply_names(nvs, 0, caps0) == Err::<CapabilitySet, _>(
                                DiagnosticV::UnsupportedCapability(offending@),
                            ));
                            return Err(Diagnostic::UnsupportedCapability(offending));
                        },
                    }
                    j += 1;
                }
            },
            Attr::Other => {
                return Err(Diagnostic::UnsupportedAttribute);
            },
        }
        i += 1;
    }
    Ok((hints, caps))
}

/// The set with one capability switched on, per [`with_cap`].
fn apply_cap(caps: CapabilitySet, kind: CapKind) -> (r: CapabilitySet)
    ensures
        r == with_cap(caps, kind),
{
    match kind {
        CapKind::Eq => CapabilitySet { eq: true, ..caps },
        CapKind::Ord => CapabilitySet { ord: true, ..caps },
        CapKind::Hash => CapabilitySet { hash: true, ..caps },
        CapKind::Copy => CapabilitySet { copy: true, ..caps },
        CapKind::Clone => CapabilitySet { clone: true, ..caps },
        CapKind::Debug => CapabilitySet { debug: true, ..caps },
        CapKind::Default => CapabilitySet { default: true, ..caps },
    }
}

} // verus!
