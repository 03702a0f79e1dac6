//! Run-time semantics of the generated builder: setters, accumulators,
//! factory defaults and the fallible assembly method.

use builder::assemble::{BuilderState, FieldValue, Slot};
use builder::ast::{
    AnnotArg, AnnotPath, AnnotValue, Annotation, Declaration, FieldSchema, HeadArgs, StructFields,
    TypeExpr, TypeShape,
};
use builder::synthesize::{synthesize, AssemblyStep, FieldMode};

fn simple(name: &str) -> TypeExpr {
    TypeExpr {
        text: name.to_string(),
        shape: TypeShape::Path {
            qualified: false,
            leading_sep: false,
            segments: 1,
            head_name: name.to_string(),
            head_args: HeadArgs::NoArgs,
        },
    }
}

fn wrap(wrapper: &str, inner: TypeExpr) -> TypeExpr {
    TypeExpr {
        text: format!("{}<{}>", wrapper, inner.text),
        shape: TypeShape::Path {
            qualified: false,
            leading_sep: false,
            segments: 1,
            head_name: wrapper.to_string(),
            head_args: HeadArgs::SingleType(Box::new(inner)),
        },
    }
}

fn each_annotation(name: &str, span: usize) -> Annotation {
    Annotation {
        span,
        path_ident: Some("builder".to_string()),
        arg: AnnotArg::Assign {
            has_attrs: false,
            left: AnnotPath { has_attrs: false, qualified: false, ident: Some("each".to_string()) },
            right: AnnotValue::Str(name.to_string()),
        },
    }
}

fn field(name: &str, span: usize, ty: TypeExpr, anns: Vec<Annotation>) -> FieldSchema {
    FieldSchema { name: name.to_string(), span, declared_type: ty, annotations: anns }
}

fn command_plan() -> Vec<AssemblyStep> {
    let d = Declaration::Struct {
        name: "Command".to_string(),
        span: 0,
        fields: StructFields::Named(vec![
            field("executable", 1, simple("String"), vec![]),
            field("args", 2, wrap("Vec", simple("String")), vec![each_annotation("arg", 10)]),
            field("env", 3, wrap("Vec", simple("String")), vec![each_annotation("env", 11)]),
            field("current_dir", 4, wrap("Option", simple("String")), vec![]),
        ]),
    };
    synthesize(&d).unwrap().assembly
}

#[test]
fn command_round_trip() {
    let mut b = BuilderState::<String>::fresh(command_plan());
    b.store(0, "cargo".to_string());
    b.accumulate(1, "build".to_string());
    b.accumulate(1, "--release".to_string());
    let values = b.assemble().unwrap();
    assert_eq!(values.len(), 4);
    assert_eq!(values[0], FieldValue::Single("cargo".to_string()));
    assert_eq!(
        values[1],
        FieldValue::Repeated(vec!["build".to_string(), "--release".to_string()])
    );
    assert_eq!(values[2], FieldValue::Repeated(vec![]));
    assert_eq!(values[3], FieldValue::Optional(None));
}

#[test]
fn missing_required_field_reported() {
    let mut b = BuilderState::<String>::fresh(command_plan());
    b.accumulate(1, "build".to_string());
    let e = b.assemble().unwrap_err();
    assert_eq!(e.field_name, "executable");
    assert_eq!(e.message(), "executable is not set");
}

#[test]
fn first_missing_field_named() {
    let plan = vec![
        AssemblyStep { field_name: "first".to_string(), mode: FieldMode::Required },
        AssemblyStep { field_name: "second".to_string(), mode: FieldMode::Required },
    ];
    let b = BuilderState::<u64>::fresh(plan);
    let e = b.assemble().unwrap_err();
    assert_eq!(e.field_name, "first");

    let plan = vec![
        AssemblyStep { field_name: "first".to_string(), mode: FieldMode::Required },
        AssemblyStep { field_name: "second".to_string(), mode: FieldMode::Required },
    ];
    let mut b = BuilderState::<u64>::fresh(plan);
    b.store(0, 7);
    let e = b.assemble().unwrap_err();
    assert_eq!(e.field_name, "second");
}

#[test]
fn optional_field_never_blocks() {
    let plan = vec![AssemblyStep { field_name: "maybe".to_string(), mode: FieldMode::Optional }];
    let b = BuilderState::<i32>::fresh(plan);
    let values = b.assemble().unwrap();
    assert_eq!(values[0], FieldValue::Optional(None));

    let plan = vec![AssemblyStep { field_name: "maybe".to_string(), mode: FieldMode::Optional }];
    let mut b = BuilderState::<i32>::fresh(plan);
    b.store(0, 42);
    let values = b.assemble().unwrap();
    assert_eq!(values[0], FieldValue::Optional(Some(42)));
}

#[test]
fn sequence_without_accumulator_is_required() {
    let d = Declaration::Struct {
        name: "Job".to_string(),
        span: 0,
        fields: StructFields::Named(vec![field(
            "steps",
            1,
            wrap("Vec", simple("String")),
            vec![],
        )]),
    };
    let g = synthesize(&d).unwrap();
    assert_eq!(g.builder.fields[0].storage_type.text, "Option<Vec<String>>");
    assert_eq!(g.accessors[0].method_name, "steps");
    assert_eq!(g.accessors[0].param_type.text, "Vec<String>");
    assert_eq!(g.assembly[0].mode, FieldMode::Required);

    let b = BuilderState::<String>::fresh(g.assembly);
    let e = b.assemble().unwrap_err();
    assert_eq!(e.field_name, "steps");
    assert_eq!(e.message(), "steps is not set");
}

#[test]
fn untouched_accumulator_yields_empty() {
    let plan = vec![
        AssemblyStep { field_name: "items".to_string(), mode: FieldMode::Accumulated },
        AssemblyStep { field_name: "tags".to_string(), mode: FieldMode::Accumulated },
    ];
    let b = BuilderState::<String>::fresh(plan);
    let values = b.assemble().unwrap();
    assert_eq!(values[0], FieldValue::Repeated(vec![]));
    assert_eq!(values[1], FieldValue::Repeated(vec![]));
}

#[test]
fn last_store_wins() {
    let plan = vec![AssemblyStep { field_name: "name".to_string(), mode: FieldMode::Required }];
    let mut b = BuilderState::<String>::fresh(plan);
    b.store(0, "first".to_string());
    b.store(0, "second".to_string());
    let values = b.assemble().unwrap();
    assert_eq!(values[0], FieldValue::Single("second".to_string()));
}

#[test]
fn accumulator_preserves_call_order() {
    let plan = vec![AssemblyStep { field_name: "seen".to_string(), mode: FieldMode::Accumulated }];
    let mut b = BuilderState::<u64>::fresh(plan);
    b.accumulate(0, 3);
    b.accumulate(0, 1);
    b.accumulate(0, 2);
    let values = b.assemble().unwrap();
    assert_eq!(values[0], FieldValue::Repeated(vec![3, 1, 2]));
}

#[test]
fn fresh_builder_defaults() {
    let plan = vec![
        AssemblyStep { field_name: "a".to_string(), mode: FieldMode::Required },
        AssemblyStep { field_name: "b".to_string(), mode: FieldMode::Optional },
        AssemblyStep { field_name: "c".to_string(), mode: FieldMode::Accumulated },
    ];
    let b = BuilderState::<u8>::fresh(plan);
    assert_eq!(b.slots.len(), 3);
    assert_eq!(b.slots[0], Slot::Unset);
    assert_eq!(b.slots[1], Slot::Unset);
    assert_eq!(b.slots[2], Slot::Items(vec![]));
}
