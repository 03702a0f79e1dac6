//! Schema extraction, classification and synthesis, on concrete schemas.

use builder::ast::{
    AnnotArg, AnnotPath, AnnotValue, Annotation, Declaration, FieldSchema, HeadArgs, StructFields,
    TypeExpr, TypeShape,
};
use builder::classify::{classify, TypeClassification};
use builder::diagnostics::DiagnosticKind;
use builder::extract::extract_schema;
use builder::synthesize::{builder_type_name, synthesize, AccessorKind, FieldMode};

fn simple(name: &str) -> TypeExpr {
    TypeExpr {
        text: name.to_string(),
        shape: TypeShape::Path {
            qualified: false,
            leading_sep: false,
            segments: 1,
            head_name: name.to_string(),
            head_args: HeadArgs::NoArgs,
        },
    }
}

fn wrap(wrapper: &str, inner: TypeExpr) -> TypeExpr {
    TypeExpr {
        text: format!("{}<{}>", wrapper, inner.text),
        shape: TypeShape::Path {
            qualified: false,
            leading_sep: false,
            segments: 1,
            head_name: wrapper.to_string(),
            head_args: HeadArgs::SingleType(Box::new(inner)),
        },
    }
}

fn each_annotation(name: &str, span: usize) -> Annotation {
    Annotation {
        span,
        path_ident: Some("builder".to_string()),
        arg: AnnotArg::Assign {
            has_attrs: false,
            left: AnnotPath { has_attrs: false, qualified: false, ident: Some("each".to_string()) },
            right: AnnotValue::Str(name.to_string()),
        },
    }
}

fn field(name: &str, span: usize, ty: TypeExpr, anns: Vec<Annotation>) -> FieldSchema {
    FieldSchema { name: name.to_string(), span, declared_type: ty, annotations: anns }
}

fn command_declaration() -> Declaration {
    Declaration::Struct {
        name: "Command".to_string(),
        span: 0,
        fields: StructFields::Named(vec![
            field("executable", 1, simple("String"), vec![]),
            field("args", 2, wrap("Vec", simple("String")), vec![each_annotation("arg", 10)]),
            field("env", 3, wrap("Vec", simple("String")), vec![each_annotation("env", 11)]),
            field("current_dir", 4, wrap("Option", simple("String")), vec![]),
        ]),
    }
}

#[test]
fn classify_plain_field() {
    let f = field("executable", 1, simple("String"), vec![]);
    match classify(&f) {
        Ok(TypeClassification::Plain(t)) => assert_eq!(t.text, "String"),
        other => panic!("unexpected classification: {:?}", other),
    }
}

#[test]
fn classify_optional_field() {
    let f = field("current_dir", 1, wrap("Option", simple("String")), vec![]);
    match classify(&f) {
        Ok(TypeClassification::OptionalWrapped(t)) => assert_eq!(t.text, "String"),
        other => panic!("unexpected classification: {:?}", other),
    }
}

#[test]
fn classify_sequence_without_annotation() {
    let f = field("args", 1, wrap("Vec", simple("String")), vec![]);
    match classify(&f) {
        Ok(TypeClassification::RepeatedPlain(t)) => assert_eq!(t.text, "String"),
        other => panic!("unexpected classification: {:?}", other),
    }
}

#[test]
fn classify_sequence_with_accumulator() {
    let f = field("args", 1, wrap("Vec", simple("String")), vec![each_annotation("arg", 7)]);
    match classify(&f) {
        Ok(TypeClassification::RepeatedWithAccumulator(t, name)) => {
            assert_eq!(t.text, "String");
            assert_eq!(name, "arg");
        },
        other => panic!("unexpected classification: {:?}", other),
    }
}

#[test]
fn classify_rejects_non_string_value() {
    let ann = Annotation {
        span: 9,
        path_ident: Some("builder".to_string()),
        arg: AnnotArg::Assign {
            has_attrs: false,
            left: AnnotPath { has_attrs: false, qualified: false, ident: Some("each".to_string()) },
            right: AnnotValue::OtherLit,
        },
    };
    let f = field("args", 1, wrap("Vec", simple("String")), vec![ann]);
    let e = classify(&f).unwrap_err();
    assert_eq!(e.kind, DiagnosticKind::MalformedAccumulatorAnnotation);
    assert_eq!(e.span, 9);
    assert_eq!(e.message(), "expected `builder(each = \"...\")`");
}

#[test]
fn classify_rejects_wrong_key() {
    let ann = Annotation {
        span: 5,
        path_ident: Some("builder".to_string()),
        arg: AnnotArg::Assign {
            has_attrs: false,
            left: AnnotPath {
                has_attrs: false,
                qualified: false,
                ident: Some("every".to_string()),
            },
            right: AnnotValue::Str("arg".to_string()),
        },
    };
    let f = field("args", 1, wrap("Vec", simple("String")), vec![ann]);
    let e = classify(&f).unwrap_err();
    assert_eq!(e.kind, DiagnosticKind::MalformedAccumulatorAnnotation);
    assert_eq!(e.span, 5);
}

#[test]
fn classify_rejects_decorated_assignment() {
    let ann = Annotation {
        span: 6,
        path_ident: Some("builder".to_string()),
        arg: AnnotArg::Assign {
            has_attrs: true,
            left: AnnotPath { has_attrs: false, qualified: false, ident: Some("each".to_string()) },
            right: AnnotValue::Str("arg".to_string()),
        },
    };
    let f = field("args", 1, wrap("Vec", simple("String")), vec![ann]);
    let e = classify(&f).unwrap_err();
    assert_eq!(e.kind, DiagnosticKind::MalformedAccumulatorAnnotation);
}

#[test]
fn classify_rejects_non_assignment() {
    let ann = Annotation {
        span: 8,
        path_ident: Some("builder".to_string()),
        arg: AnnotArg::Other,
    };
    let f = field("args", 1, wrap("Vec", simple("String")), vec![ann]);
    let e = classify(&f).unwrap_err();
    assert_eq!(e.kind, DiagnosticKind::MalformedAccumulatorAnnotation);
    assert_eq!(e.span, 8);
}

#[test]
fn classify_rejects_accumulator_on_non_sequence() {
    let f = field("executable", 1, simple("String"), vec![each_annotation("exe", 12)]);
    let e = classify(&f).unwrap_err();
    assert_eq!(e.kind, DiagnosticKind::AccumulatorNeedsSequence);
    assert_eq!(e.span, 12);
    assert_eq!(e.message(), "Vec<T> is expected");
}

#[test]
fn classify_option_beats_annotation() {
    let f = field(
        "current_dir",
        1,
        wrap("Option", simple("String")),
        vec![each_annotation("dir", 13)],
    );
    match classify(&f) {
        Ok(TypeClassification::OptionalWrapped(t)) => assert_eq!(t.text, "String"),
        other => panic!("unexpected classification: {:?}", other),
    }
}

#[test]
fn classification_is_deterministic() {
    let f = field("args", 1, wrap("Vec", simple("String")), vec![each_annotation("arg", 7)]);
    let first = classify(&f);
    let second = classify(&f);
    assert_eq!(first, second);
    let g = field("executable", 1, simple("String"), vec![]);
    assert_eq!(classify(&g), classify(&g));
}

#[test]
fn extract_schema_accepts_named_struct() {
    let s = extract_schema(command_declaration()).unwrap();
    assert_eq!(s.name, "Command");
    assert_eq!(s.fields.len(), 4);
    assert_eq!(s.fields[0].name, "executable");
    assert_eq!(s.fields[3].name, "current_dir");
}

#[test]
fn extract_rejects_enum() {
    let d = Declaration::Enum { name: "Kind".to_string(), span: 21 };
    let e = extract_schema(d).unwrap_err();
    assert_eq!(e.kind, DiagnosticKind::NotAStruct);
    assert_eq!(e.span, 21);
    assert_eq!(e.message(), "Should be Struct");
}

#[test]
fn extract_rejects_union() {
    let d = Declaration::Union { name: "Raw".to_string(), span: 22 };
    let e = extract_schema(d).unwrap_err();
    assert_eq!(e.kind, DiagnosticKind::NotAStruct);
}

#[test]
fn extract_rejects_tuple_struct() {
    let d = Declaration::Struct {
        name: "Pair".to_string(),
        span: 23,
        fields: StructFields::Unnamed,
    };
    let e = extract_schema(d).unwrap_err();
    assert_eq!(e.kind, DiagnosticKind::MissingFieldNames);
    assert_eq!(e.message(), "field name is necessary");
}

#[test]
fn extract_rejects_unit_struct() {
    let d = Declaration::Struct { name: "Unit".to_string(), span: 24, fields: StructFields::Unit };
    let e = extract_schema(d).unwrap_err();
    assert_eq!(e.kind, DiagnosticKind::MissingFieldNames);
}

#[test]
fn synthesize_command_schema() {
    let g = synthesize(&command_declaration()).unwrap();
    assert_eq!(g.record_name, "Command");
    assert_eq!(g.builder.name, "CommandBuilder");
    assert_eq!(g.factory_method, "builder");

    assert_eq!(g.builder.fields.len(), 4);
    assert_eq!(g.builder.fields[0].name, "executable");
    assert_eq!(g.builder.fields[0].storage_type.text, "Option<String>");
    assert_eq!(g.builder.fields[1].storage_type.text, "Vec<String>");
    assert_eq!(g.builder.fields[2].storage_type.text, "Vec<String>");
    assert_eq!(g.builder.fields[3].storage_type.text, "Option<String>");

    assert_eq!(g.accessors.len(), 4);
    assert_eq!(g.accessors[0].method_name, "executable");
    assert_eq!(g.accessors[0].param_type.text, "String");
    assert_eq!(g.accessors[0].kind, AccessorKind::Store);
    assert_eq!(g.accessors[1].method_name, "arg");
    assert_eq!(g.accessors[1].field_name, "args");
    assert_eq!(g.accessors[1].param_type.text, "String");
    assert_eq!(g.accessors[1].kind, AccessorKind::Append);
    assert_eq!(g.accessors[2].method_name, "env");
    assert_eq!(g.accessors[3].method_name, "current_dir");
    assert_eq!(g.accessors[3].param_type.text, "String");
    assert_eq!(g.accessors[3].kind, AccessorKind::Store);

    assert_eq!(g.assembly.len(), 4);
    assert_eq!(g.assembly[0].mode, FieldMode::Required);
    assert_eq!(g.assembly[1].mode, FieldMode::Accumulated);
    assert_eq!(g.assembly[2].mode, FieldMode::Accumulated);
    assert_eq!(g.assembly[3].mode, FieldMode::Optional);
}

#[test]
fn storage_rule_wraps_required_fields() {
    let d = Declaration::Struct {
        name: "Sample".to_string(),
        span: 0,
        fields: StructFields::Named(vec![
            field("plain", 1, simple("u32"), vec![]),
            field("maybe", 2, wrap("Option", simple("u32")), vec![]),
            field("many", 3, wrap("Vec", simple("u32")), vec![]),
            field("counted", 4, wrap("Vec", simple("u32")), vec![each_annotation("count", 9)]),
        ]),
    };
    let g = synthesize(&d).unwrap();
    assert_eq!(g.builder.fields[0].storage_type.text, "Option<u32>");
    assert_eq!(g.builder.fields[1].storage_type.text, "Option<u32>");
    assert_eq!(g.builder.fields[1].storage_type, wrap("Option", simple("u32")));
    assert_eq!(g.builder.fields[2].storage_type.text, "Option<Vec<u32>>");
    assert_eq!(g.builder.fields[3].storage_type.text, "Vec<u32>");
    assert_eq!(g.builder.fields[3].storage_type, wrap("Vec", simple("u32")));
}

#[test]
fn synthesize_reports_first_annotation_error() {
    let bad_first = Annotation {
        span: 31,
        path_ident: Some("builder".to_string()),
        arg: AnnotArg::Other,
    };
    let d = Declaration::Struct {
        name: "Broken".to_string(),
        span: 0,
        fields: StructFields::Named(vec![
            field("a", 1, wrap("Vec", simple("u32")), vec![bad_first]),
            field("b", 2, simple("u32"), vec![each_annotation("item", 32)]),
        ]),
    };
    let e = synthesize(&d).unwrap_err();
    assert_eq!(e.kind, DiagnosticKind::MalformedAccumulatorAnnotation);
    assert_eq!(e.span, 31);
}

#[test]
fn synthesize_rejects_enum_declaration() {
    let d = Declaration::Enum { name: "Kind".to_string(), span: 40 };
    let e = synthesize(&d).unwrap_err();
    assert_eq!(e.kind, DiagnosticKind::NotAStruct);
    assert_eq!(e.span, 40);
}

#[test]
fn builder_name_appends_suffix() {
    assert_eq!(builder_type_name(&"Command".to_string()), "CommandBuilder");
    assert_eq!(builder_type_name(&"X".to_string()), "XBuilder");
}

#[test]
fn wrapper_recognizer_requires_single_segment() {
    let mut t = wrap("Option", simple("u32"));
    match &mut t.shape {
        TypeShape::Path { segments, .. } => *segments = 2,
        TypeShape::Other => unreachable!(),
    }
    t.text = "core::option::Option<u32>".to_string();
    let f = field("x", 1, t, vec![]);
    match classify(&f) {
        Ok(TypeClassification::Plain(_)) => {},
        other => panic!("unexpected classification: {:?}", other),
    }
}

#[test]
fn wrapper_recognizer_rejects_decorated_paths() {
    let mut qualified = wrap("Option", simple("u32"));
    match &mut qualified.shape {
        TypeShape::Path { qualified: q, .. } => *q = true,
        TypeShape::Other => unreachable!(),
    }
    let f = field("x", 1, qualified, vec![]);
    assert!(matches!(classify(&f), Ok(TypeClassification::Plain(_))));

    let mut leading = wrap("Option", simple("u32"));
    match &mut leading.shape {
        TypeShape::Path { leading_sep: l, .. } => *l = true,
        TypeShape::Other => unreachable!(),
    }
    let f = field("x", 1, leading, vec![]);
    assert!(matches!(classify(&f), Ok(TypeClassification::Plain(_))));

    let mut no_args = simple("Option");
    match &mut no_args.shape {
        TypeShape::Path { head_args, .. } => *head_args = HeadArgs::OtherArgs,
        TypeShape::Other => unreachable!(),
    }
    let f = field("x", 1, no_args, vec![]);
    assert!(matches!(classify(&f), Ok(TypeClassification::Plain(_))));
}
