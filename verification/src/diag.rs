//! Diagnostics and runtime conversion errors.
//!
//! A [`Diagnostic`] is terminal: every validation failure aborts the whole
//! transformation and no partial output is emitted. A [`ParseError`] is
//! different in kind: it models the runtime error value of the synthesized
//! fallible conversions, returned to the wrapper's caller.

use vstd::prelude::*;

verus! {

/// A terminal, compile-time diagnostic of the transformer.
#[derive(Debug)]
pub enum Diagnostic {
    /// An attribute on the declaration that is neither a representation
    /// hint, a capability request nor a conditional marker; or any
    /// non-conditional attribute on a variant.
    UnsupportedAttribute,
    /// A capability request outside the fixed vocabulary, carrying the
    /// offending name.
    UnsupportedCapability(String),
    /// More than one integer-type representation hint.
    ConflictingRepresentation,
    /// A variant that carries data rather than being a bare symbol.
    UnsupportedVariantShape,
}

/// The mathematical shape of a [`Diagnostic`].
pub enum DiagnosticV {
    UnsupportedAttribute,
    UnsupportedCapability(Seq<char>),
    ConflictingRepresentation,
    UnsupportedVariantShape,
}

impl View for Diagnostic {
    type V = DiagnosticV;

    open spec fn view(&self) -> DiagnosticV {
        match self {
            Diagnostic::UnsupportedAttribute => DiagnosticV::UnsupportedAttribute,
            Diagnostic::UnsupportedCapability(name) => DiagnosticV::UnsupportedCapability(
                name.view(),
            ),
            Diagnostic::ConflictingRepresentation => DiagnosticV::ConflictingRepresentation,
            Diagnostic::UnsupportedVariantShape => DiagnosticV::UnsupportedVariantShape,
        }
    }
}

/// The error value of the synthesized fallible conversions: a raw value or
/// a name that matches no declared constant.
#[derive(Debug)]
pub enum ParseError {
    /// No constant's value equals this raw value.
    UnrecognizedValue(i128),
    /// No constant's name equals this string.
    UnrecognizedString(String),
}

/// The mathematical shape of a [`ParseError`].
pub enum ParseErrorV {
    UnrecognizedValue(i128),
    UnrecognizedString(Seq<char>),
}

impl View for ParseError {
    type V = ParseErrorV;

    open spec fn view(&self) -> ParseErrorV {
        match self {
            ParseError::UnrecognizedValue(v) => ParseErrorV::UnrecognizedValue(*v),
            ParseError::UnrecognizedString(s) => ParseErrorV::UnrecognizedString(s.view()),
        }
    }
}

} // verus!
