//! Schema-driven builder-code generator.
//!
//! Given a structural description of a record type (its name and an ordered
//! list of named, typed fields, each possibly carrying metadata annotations),
//! this library derives a companion builder type together with the accessor
//! and assembly logic needed to construct validated instances of the record
//! incrementally, with validation deferred to assembly time.
//!
//! The pipeline runs once per described record: the schema extractor
//! normalizes a declaration into a record schema, the field classifier
//! assigns each field a structural classification, and the builder
//! synthesizer derives the builder definition, the accessor methods, the
//! fallible assembly plan and the factory method. A separate module gives
//! the run-time semantics of the generated builder, so that the behaviour
//! of the emitted code is itself specified and proved.

pub mod assemble;
pub mod ast;
pub mod classify;
pub mod diagnostics;
pub mod extract;
pub mod synthesize;
