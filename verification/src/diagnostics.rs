//! Structured diagnostics: every failure carries a message and a source
//! anchor pointing at the offending syntax.

use vstd::prelude::*;

verus! {

/// The reasons an invocation can be rejected.
#[derive(Clone, Copy, PartialEq, Eq, Debug)]
pub enum DiagnosticKind {
    /// The declaration is an enum or a union, not a struct.
    NotAStruct,
    /// The struct's fields are unnamed, or the struct is a unit struct.
    MissingFieldNames,
    /// An accumulator annotation is attached to a non-sequence field.
    AccumulatorNeedsSequence,
    /// An accumulator annotation's argument is not exactly
    /// `each = "<string literal>"`.
    MalformedAccumulatorAnnotation,
}

/// A rejection: what went wrong, and where in the source.
#[derive(Clone, Copy, PartialEq, Eq, Debug)]
pub struct Diagnostic {
    pub kind: DiagnosticKind,
    /// Identifies the offending syntax in the source.
    pub span: usize,
}

/// The message text that belongs to each kind of rejection.
pub open spec fn spec_message(k: DiagnosticKind) -> Seq<char> {
    match k {
        DiagnosticKind::NotAStruct => "Should be Struct"@,
        DiagnosticKind::MissingFieldNames => "field name is necessary"@,
        DiagnosticKind::AccumulatorNeedsSequence => "Vec<T> is expected"@,
        DiagnosticKind::MalformedAccumulatorAnnotation => "expected `builder(each = \"...\")`"@,
    }
}

impl Diagnostic {
    /// The human-readable message of this diagnostic.
    pub fn message(&self) -> (r: String)
        ensures
            r@ == spec_message(self.kind),
    {
        match self.kind {
            DiagnosticKind::NotAStruct => "Should be Struct".to_owned(),
            DiagnosticKind::MissingFieldNames => "field name is necessary".to_owned(),
            DiagnosticKind::AccumulatorNeedsSequence => "Vec<T> is expected".to_owned(),
            DiagnosticKind::MalformedAccumulatorAnnotation => {
                "expected `builder(each = \"...\")`".to_owned()
            },
        }
    }
}

} // verus!
