//! The schema extractor: normalizes a top-level declaration into a record
//! schema, rejecting anything that is not a struct with named fields.

use vstd::prelude::*;
use crate::ast::{Declaration, FieldSchema, StructFields};
use crate::diagnostics::{Diagnostic, DiagnosticKind};

verus! {

/// A normalized record schema: the record's name and its ordered,
/// named fields. Immutable once extracted.
#[derive(PartialEq, Eq, Debug)]
pub struct RecordSchema {
    pub name: String,
    /// Identifies where the declaration stands in the source.
    pub span: usize,
    pub fields: Vec<FieldSchema>,
}

/// The schema a declaration yields: a record schema for a struct with
/// named fields, the matching rejection for everything else.
pub open spec fn spec_schema_of(d: Declaration) -> Result<RecordSchema, Diagnostic> {
    match d {
        Declaration::Struct { name, span, fields: StructFields::Named(fields) } => {
            Ok(RecordSchema { name, span, fields })
        },
        Declaration::Struct { span, .. } => {
            Err(Diagnostic { kind: DiagnosticKind::MissingFieldNames, span })
        },
        Declaration::Enum { span, .. } => {
            Err(Diagnostic { kind: DiagnosticKind::NotAStruct, span })
        },
        Declaration::Union { span, .. } => {
            Err(Diagnostic { kind: DiagnosticKind::NotAStruct, span })
        },
    }
}

/// Extract the record schema from a declaration, or reject it.
///
/// Fails with the not-a-struct rejection on an enum or a union, and with
/// the missing-field-names rejection on a unit struct or a struct whose
/// fields are unnamed.
pub fn extract_schema(d: Declaration) -> (r: Result<RecordSchema, Diagnostic>)
    ensures
        r == spec_schema_of(d),
{
    match d {
        Declaration::Struct { name, span, fields: StructFields::Named(fields) } => {
            Ok(RecordSchema { name, span, fields })
        },
        Declaration::Struct { name: _, span, fields: _ } => {
            Err(Diagnostic { kind: DiagnosticKind::MissingFieldNames, span })
        },
        Declaration::Enum { name: _, span } => {
            Err(Diagnostic { kind: DiagnosticKind::NotAStruct, span })
        },
        Declaration::Union { name: _, span } => {
            Err(Diagnostic { kind: DiagnosticKind::NotAStruct, span })
        },
    }
}

} // verus!
