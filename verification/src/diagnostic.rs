//! Generation-time diagnostics.
//!
//! Every failure a generator can hit is one of a closed set of kinds, and
//! each carries the most specific source span available. The first error of
//! an invocation aborts it; no partial implementation is ever emitted.

use vstd::prelude::*;
use crate::ast::Span;

verus! {

/// The closed taxonomy of generation-time errors.
#[derive(Clone, Copy, PartialEq, Eq, Structural, Debug)]
pub enum DiagnosticKind {
    /// No `object_type` attribute on the record.
    MissingKindAttribute,
    /// The `object_type` body is not a single identifier in parentheses.
    MalformedKindAttribute,
    /// The kind identifier is outside the closed variant set.
    UnknownVariant,
    /// The declaration is not a struct with named fields.
    UnsupportedShape,
    /// No field is designated as the property store.
    MissingStore,
    /// Two fields carry an explicit property-store designation.
    AmbiguousStore,
}

/// A compile-time error: a kind and the source span it points at.
#[derive(Clone, Copy, PartialEq, Eq, Structural, Debug)]
pub struct Diagnostic {
    pub kind: DiagnosticKind,
    pub span: Span,
}

/// The human-readable message for each diagnostic kind.
pub open spec fn spec_message(kind: DiagnosticKind) -> Seq<char> {
    match kind {
        DiagnosticKind::MissingKindAttribute => "could not find #[object_type(<type>)] attribute"@,
        DiagnosticKind::MalformedKindAttribute => "expected #[object_type(<type>)]"@,
        DiagnosticKind::UnknownVariant => "Must match variant"@,
        DiagnosticKind::UnsupportedShape => "expected a struct with named fields"@,
        DiagnosticKind::MissingStore => "Could not find object store in fields"@,
        DiagnosticKind::AmbiguousStore => "more than one field is marked as the object store"@,
    }
}

impl Diagnostic {
    /// A new diagnostic of the given kind at the given span.
    pub fn new(kind: DiagnosticKind, span: Span) -> (r: Diagnostic)
        ensures
            r == (Diagnostic { kind, span }),
    {
        Diagnostic { kind, span }
    }

    /// The human-readable message of this diagnostic.
    pub fn message(&self) -> (r: String)
        ensures
            r@ == spec_message(self.kind),
    {
        match self.kind {
            DiagnosticKind::MissingKindAttribute => String::from_str(
                "could not find #[object_type(<type>)] attribute",
            ),
            DiagnosticKind::MalformedKindAttribute => String::from_str(
                "expected #[object_type(<type>)]",
            ),
            DiagnosticKind::UnknownVariant => String::from_str("Must match variant"),
            DiagnosticKind::UnsupportedShape => String::from_str(
                "expected a struct with named fields",
            ),
            DiagnosticKind::MissingStore => String::from_str(
                "Could not find object store in fields",
            ),
            DiagnosticKind::AmbiguousStore => String::from_str(
                "more than one field is marked as the object store",
            ),
        }
    }
}

} // verus!
