//! The builder synthesizer: derives the builder record definition, the
//! per-field accessor methods, the fallible assembly plan and the factory
//! method from a record schema and its per-field classifications.

use vstd::prelude::*;
use vstd::string::StringExecFns;
use crate::ast::{Declaration, FieldSchema, HeadArgs, StructFields, TypeExpr, TypeShape};
use crate::classify::{
    classify, is_wrapper_shape, spec_classification, spec_wrapper_argument, TypeClassification,
};
use crate::diagnostics::{Diagnostic, DiagnosticKind};
use crate::extract::spec_schema_of;

verus! {

/// One field of the derived builder record: same name as the original
/// field, the storage type decided by the storage-type rule. Every builder
/// field is externally visible and carries no annotations.
#[derive(PartialEq, Eq, Debug)]
pub struct BuilderField {
    pub name: String,
    pub storage_type: TypeExpr,
}

/// The derived builder record: the original record's name with the fixed
/// suffix appended, and the original fields in order with their storage
/// types. The builder carries default-construction, debug-rendering and
/// duplication capability.
#[derive(PartialEq, Eq, Debug)]
pub struct BuilderSchema {
    pub name: String,
    pub fields: Vec<BuilderField>,
}

/// How an accessor treats the value it is handed.
#[derive(Clone, Copy, PartialEq, Eq, Debug)]
pub enum AccessorKind {
    /// A chained setter: stores the present value into the storage field.
    Store,
    /// A chained accumulator: appends the value to the sequence field.
    Append,
}

/// One generated accessor method on the builder.
#[derive(PartialEq, Eq, Debug)]
pub struct Accessor {
    /// The method's name: the field name, or the accumulator name.
    pub method_name: String,
    /// The builder field the method touches.
    pub field_name: String,
    /// The type of the method's single parameter.
    pub param_type: TypeExpr,
    pub kind: AccessorKind,
}

/// How the assembly method treats a field.
#[derive(Clone, Copy, PartialEq, Eq, Debug)]
pub enum FieldMode {
    /// The storage value must be present, else assembly fails.
    Required,
    /// The storage value is read directly; assembly cannot fail here.
    Optional,
    /// The always-present sequence is read directly; assembly cannot
    /// fail here.
    Accumulated,
}

/// One step of the generated assembly method, in original field order.
#[derive(PartialEq, Eq, Debug)]
pub struct AssemblyStep {
    pub field_name: String,
    pub mode: FieldMode,
}

/// The generated artifacts for one record: the builder definition, the
/// accessor block, the assembly plan, and the name of the static factory
/// method on the original record that returns a default-initialized
/// builder. They are emitted together, never merged or reordered.
#[derive(PartialEq, Eq, Debug)]
pub struct GeneratedArtifacts {
    pub record_name: String,
    pub builder: BuilderSchema,
    pub accessors: Vec<Accessor>,
    pub assembly: Vec<AssemblyStep>,
    pub factory_method: String,
}

/// Whether a classification keeps the declared type as the storage type.
pub open spec fn storage_stays_declared(c: TypeClassification) -> bool {
    c is OptionalWrapped || c is RepeatedWithAccumulator
}

/// The assembly mode a classification dictates.
pub open spec fn spec_mode_of(c: TypeClassification) -> FieldMode {
    match c {
        TypeClassification::Plain(_) => FieldMode::Required,
        TypeClassification::OptionalWrapped(_) => FieldMode::Optional,
        TypeClassification::RepeatedPlain(_) => FieldMode::Required,
        TypeClassification::RepeatedWithAccumulator(_, _) => FieldMode::Accumulated,
    }
}

/// Whether `w` is exactly the optional wrapper around `t`: its text is the
/// wrapper applied to `t`'s text, and its shape is a recognized optional
/// wrapper whose single type argument is `t`.
pub open spec fn is_option_wrap_of(w: TypeExpr, t: TypeExpr) -> bool {
    &&& w.text@ == "Option<"@ + t.text@ + ">"@
    &&& is_wrapper_shape(w, "Option"@)
    &&& spec_wrapper_argument(w) == t
}

/// The storage-type rule applied to one builder field.
pub open spec fn builder_field_ok(bf: BuilderField, f: FieldSchema, c: TypeClassification) -> bool {
    &&& bf.name == f.name
    &&& if storage_stays_declared(c) {
        bf.storage_type == f.declared_type
    } else {
        is_option_wrap_of(bf.storage_type, f.declared_type)
    }
}

/// The accessor a classification earns: a setter under the field's own
/// name taking the inner type for an optional-wrapped field, the declared
/// type otherwise; an appending accumulator under the accumulator's name
/// taking the element type when the field names one.
pub open spec fn accessor_ok(a: Accessor, f: FieldSchema, c: TypeClassification) -> bool {
    match c {
        TypeClassification::Plain(_) => {
            &&& a.method_name == f.name
            &&& a.field_name == f.name
            &&& a.param_type == f.declared_type
            &&& a.kind == AccessorKind::Store
        },
        TypeClassification::OptionalWrapped(inner) => {
            &&& a.method_name == f.name
            &&& a.field_name == f.name
            &&& a.param_type == inner
            &&& a.kind == AccessorKind::Store
        },
        TypeClassification::RepeatedPlain(_) => {
            &&& a.method_name == f.name
            &&& a.field_name == f.name
            &&& a.param_type == f.declared_type
            &&& a.kind == AccessorKind::Store
        },
        TypeClassification::RepeatedWithAccumulator(inner, acc) => {
            &&& a.method_name == acc
            &&& a.field_name == f.name
            &&& a.param_type == inner
            &&& a.kind == AccessorKind::Append
        },
    }
}

/// The assembly step a classification earns.
pub open spec fn step_ok(s: AssemblyStep, f: FieldSchema, c: TypeClassification) -> bool {
    &&& s.field_name == f.name
    &&& s.mode == spec_mode_of(c)
}

/// All three artifacts of one field agree with its classification.
pub open spec fn row_ok(bf: BuilderField, a: Accessor, s: AssemblyStep, f: FieldSchema) -> bool {
    spec_classification(f) matches Ok(c) ==> {
        &&& builder_field_ok(bf, f, c)
        &&& accessor_ok(a, f, c)
        &&& step_ok(s, f, c)
    }
}

/// The generated artifacts agree with the schema: names derived by the
/// fixed rule, one artifact row per field in order, each row dictated by
/// the field's classification.
pub open spec fn artifacts_ok(g: GeneratedArtifacts, name: String, fields: Seq<FieldSchema>) -> bool {
    &&& g.record_name == name
    &&& g.builder.name@ == name@ + "Builder"@
    &&& g.factory_method@ == "builder"@
    &&& g.builder.fields@.len() == fields.len()
    &&& g.accessors@.len() == fields.len()
    &&& g.assembly@.len() == fields.len()
    &&& forall|i: int| 0 <= i < fields.len() ==> #[trigger] row_ok(
        g.builder.fields@[i],
        g.accessors@[i],
        g.assembly@[i],
        fields[i],
    )
}

/// The first classification rejection among the fields, in field order.
pub open spec fn spec_first_field_error(fields: Seq<FieldSchema>) -> Option<Diagnostic>
    decreases fields.len(),
{
    if fields.len() <= 0 {
        None
    } else {
        match spec_classification(fields[0]) {
            Err(e) => Some(e),
            Ok(_) => spec_first_field_error(fields.skip(1)),
        }
    }
}

/// The derived builder type's name: the record's name with the fixed
/// suffix appended. No collision detection is attempted against
/// pre-existing types of that name; this is a known limitation.
pub fn builder_type_name(name: &String) -> (r: String)
    ensures
        r@ == name@ + "Builder"@,
{
    name.clone().concat("Builder")
}

/// The declared type wrapped in the optional wrapper.
pub fn option_wrap(t: TypeExpr) -> (r: TypeExpr)
    ensures
        is_option_wrap_of(r, t),
{
    let text = "Option<".to_owned().concat(t.text.as_str()).concat(">");
    TypeExpr {
        text,
        shape: TypeShape::Path {
            qualified: false,
            leading_sep: false,
            segments: 1,
            head_name: "Option".to_owned(),
            head_args: HeadArgs::SingleType(Box::new(t)),
        },
    }
}

/// Run the whole pipeline on one declaration: extract the schema, classify
/// every field, and synthesize the generated artifacts.
///
/// Succeeds exactly when the declaration is a struct with named fields and
/// every field classifies without rejection; otherwise the first rejection,
/// in stage and field order, is returned.
#[verifier::loop_isolation(false)]
pub fn synthesize(d: &Declaration) -> (r: Result<GeneratedArtifacts, Diagnostic>)
    ensures
        match spec_schema_of(*d) {
            Ok(s) => match spec_first_field_error(s.fields@) {
                Some(e) => r == Err::<GeneratedArtifacts, Diagnostic>(e),
                None => r matches Ok(g) && artifacts_ok(g, s.name, s.fields@),
            },
            Err(e) => r == Err::<GeneratedArtifacts, Diagnostic>(e),
        },
{
    let (name, fields): (&String, &Vec<FieldSchema>) = match d {
        Declaration::Struct { name, span: _, fields: StructFields::Named(fields) } => {
            (name, fields)
        },
        Declaration::Struct { name: _, span, fields: _ } => {
            return Err(Diagnostic { kind: DiagnosticKind::MissingFieldNames, span: *span });
        },
        Declaration::Enum { name: _, span } => {
            return Err(Diagnostic { kind: DiagnosticKind::NotAStruct, span: *span });
        },
        Declaration::Union { name: _, span } => {
            return Err(Diagnostic { kind: DiagnosticKind::NotAStruct, span: *span });
        },
    };

    let mut builder_fields: Vec<BuilderField> = Vec::new();
    let mut accessors: Vec<Accessor> = Vec::new();
    let mut assembly: Vec<AssemblyStep> = Vec::new();
    let mut i: usize = 0;
    proof {
        assert(fields@.skip(0) =~= fields@);
    }
    while i < fields.len()
        invariant
            0 <= i <= fields@.len(),
            builder_fields@.len() == i,
            accessors@.len() == i,
            assembly@.len() == i,
            spec_first_field_error(fields@.skip(i as int)) == spec_first_field_error(fields@),
            forall|j: int| 0 <= j < i ==> spec_classification(fields@[j]) is Ok,
            forall|j: int| 0 <= j < i ==> #[trigger] row_ok(
                builder_fields@[j],
                accessors@[j],
                assembly@[j],
                fields@[j],
            ),
        decreases fields@.len() - i,
    {
        let f = &fields[i];
        proof {
            assert(fields@.skip(i as int)[0] == fields@[i as int]);
        }
        match classify(f) {
            Err(e) => {
                proof {
                    assert(spec_first_field_error(fields@.skip(i as int)) == Some(e));
                }
                return Err(e);
            },
            Ok(c) => {
                match &c {
                    TypeClassification::Plain(_) => {
                        builder_fields.push(BuilderField {
                            name: f.name.clone(),
                            storage_type: option_wrap(f.declared_type.duplicate()),
                        });
                        accessors.push(Accessor {
                            method_name: f.name.clone(),
                            field_name: f.name.clone(),
                            param_type: f.declared_type.duplicate(),
                            kind: AccessorKind::Store,
                        });
                        assembly.push(AssemblyStep {
                            field_name: f.name.clone(),
                            mode: FieldMode::Required,
                        });
                    },
                    TypeClassification::OptionalWrapped(inner) => {
                        builder_fields.push(BuilderField {
                            name: f.name.clone(),
                            storage_type: f.declared_type.duplicate(),
                        });
                        accessors.push(Accessor {
                            method_name: f.name.clone(),
                            field_name: f.name.clone(),
                            param_type: inner.duplicate(),
                            kind: AccessorKind::Store,
                        });
                        assembly.push(AssemblyStep {
                            field_name: f.name.clone(),
                            mode: FieldMode::Optional,
                        });
                    },
                    TypeClassification::RepeatedPlain(_) => {
                        builder_fields.push(BuilderField {
                            name: f.name.clone(),
                            storage_type: option_wrap(f.declared_type.duplicate()),
                        });
                        accessors.push(Accessor {
                            method_name: f.name.clone(),
                            field_name: f.name.clone(),
                            param_type: f.declared_type.duplicate(),
                            kind: AccessorKind::Store,
                        });
                        assembly.push(AssemblyStep {
                            field_name: f.name.clone(),
                            mode: FieldMode::Required,
                        });
                    },
                    TypeClassification::RepeatedWithAccumulator(inner, acc) => {
                        builder_fields.push(BuilderField {
                            name: f.name.clone(),
                            storage_type: f.declared_type.duplicate(),
                        });
                        accessors.push(Accessor {
                            method_name: acc.clone(),
                            field_name: f.name.clone(),
                            param_type: inner.duplicate(),
                            kind: AccessorKind::Append,
                        });
                        assembly.push(AssemblyStep {
                            field_name: f.name.clone(),
                            mode: FieldMode::Accumulated,
                        });
                    },
                }
            },
        }
        proof {
            assert(fields@.skip(i as int).skip(1) =~= fields@.skip(i as int + 1));
        }
        i = i + 1;
    }
    proof {
        assert(fields@.skip(i as int) =~= Seq::<FieldSchema>::empty());
    }
    Ok(GeneratedArtifacts {
        record_name: name.clone(),
        builder: BuilderSchema { name: builder_type_name(name), fields: builder_fields },
        accessors,
        assembly,
        factory_method: "builder".to_owned(),
    })
}

/// The storage-type rule, as a law: the builder's storage type equals the
/// declared type exactly when the classification is optional-wrapped or
/// repeated-with-accumulator; in every other case it is the declared type
/// wrapped in the optional wrapper, which never equals the declared type.
pub proof fn lemma_storage_type_rule(f: FieldSchema, c: TypeClassification, bf: BuilderField)
    requires
        spec_classification(f) == Ok::<TypeClassification, Diagnostic>(c),
        builder_field_ok(bf, f, c),
    ensures
        bf.storage_type == f.declared_type <==> storage_stays_declared(c),
{
    if !storage_stays_declared(c) {
        reveal_strlit("Option<");
        reveal_strlit(">");
        assert(bf.storage_type.text@.len() == f.declared_type.text@.len() + 8);
    }
}

} // verus!
