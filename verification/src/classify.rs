//! The field classifier: a pure, deterministic function from a field's
//! declared type and annotation set to its structural classification.

use vstd::prelude::*;
use vstd::pervasive::unreached;
use crate::ast::{AnnotArg, AnnotValue, Annotation, FieldSchema, HeadArgs, TypeExpr, TypeShape};
use crate::diagnostics::{Diagnostic, DiagnosticKind};

verus! {

/// The structural category of a field's declared type.
#[derive(PartialEq, Eq, Debug)]
pub enum TypeClassification {
    /// The declared type is used as-is.
    Plain(TypeExpr),
    /// The declared type is the optional wrapper around the inner type.
    OptionalWrapped(TypeExpr),
    /// The declared type is the sequence wrapper around the inner type,
    /// and the field carries no accumulator annotation.
    RepeatedPlain(TypeExpr),
    /// The declared type is the sequence wrapper around the inner type,
    /// and the field names an accumulator method.
    RepeatedWithAccumulator(TypeExpr, String),
}

/// The single-argument generic-wrapper recognizer shared by optional and
/// sequence detection: the type expression has no qualifying prefix, no
/// leading path separator, a single path segment whose name matches the
/// wrapper's recognized name, and exactly one angle-bracketed type argument.
pub open spec fn is_wrapper_shape(t: TypeExpr, wrapper: Seq<char>) -> bool {
    match t.shape {
        TypeShape::Path { qualified, leading_sep, segments, head_name, head_args } => {
            &&& !qualified
            &&& !leading_sep
            &&& segments == 1
            &&& head_name@ == wrapper
            &&& head_args is SingleType
        },
        TypeShape::Other => false,
    }
}

/// The single type argument of a wrapper; the expression itself when its
/// head segment does not carry exactly one type argument.
pub open spec fn spec_wrapper_argument(t: TypeExpr) -> TypeExpr {
    match t.shape {
        TypeShape::Path { head_args: HeadArgs::SingleType(inner), .. } => *inner,
        _ => t,
    }
}

/// Whether an annotation is scoped to the builder: its path is the single
/// bare identifier `builder`.
pub open spec fn is_builder_annotation(a: Annotation) -> bool {
    a.path_ident matches Some(n) && n@ == "builder"@
}

/// The first builder-scoped annotation of a field, in attachment order.
pub open spec fn spec_first_builder_annotation(anns: Seq<Annotation>) -> Option<Annotation>
    decreases anns.len(),
{
    if anns.len() <= 0 {
        None
    } else if is_builder_annotation(anns[0]) {
        Some(anns[0])
    } else {
        spec_first_builder_annotation(anns.skip(1))
    }
}

/// The accumulator name carried by an annotation argument, when the
/// argument has exactly the shape `each = "<string literal>"`: a single
/// undecorated assignment whose left side is the bare unqualified
/// identifier `each` and whose right side is a string literal.
pub open spec fn spec_each_name(arg: AnnotArg) -> Option<String> {
    match arg {
        AnnotArg::Assign { has_attrs, left, right } => {
            if has_attrs || left.has_attrs || left.qualified {
                None
            } else if !(left.ident matches Some(k) && k@ == "each"@) {
                None
            } else {
                match right {
                    AnnotValue::Str(s) => Some(s),
                    AnnotValue::OtherLit => None,
                    AnnotValue::NotLit => None,
                }
            }
        },
        AnnotArg::Other => None,
    }
}

/// The classification of a field, or the rejection it earns.
///
/// An optional-wrapped field is recognized first, whatever annotations it
/// carries. Otherwise a builder-scoped annotation demands a sequence field
/// and an argument of exactly the accumulator shape; a sequence field
/// without such an annotation is repeated-plain, and everything else is
/// plain.
pub open spec fn spec_classification(f: FieldSchema) -> Result<TypeClassification, Diagnostic> {
    if is_wrapper_shape(f.declared_type, "Option"@) {
        Ok(TypeClassification::OptionalWrapped(spec_wrapper_argument(f.declared_type)))
    } else {
        match spec_first_builder_annotation(f.annotations@) {
            Some(a) => {
                if !is_wrapper_shape(f.declared_type, "Vec"@) {
                    Err(Diagnostic { kind: DiagnosticKind::AccumulatorNeedsSequence, span: a.span })
                } else {
                    match spec_each_name(a.arg) {
                        Some(n) => Ok(TypeClassification::RepeatedWithAccumulator(
                            spec_wrapper_argument(f.declared_type),
                            n,
                        )),
                        None => Err(Diagnostic {
                            kind: DiagnosticKind::MalformedAccumulatorAnnotation,
                            span: a.span,
                        }),
                    }
                }
            },
            None => {
                if is_wrapper_shape(f.declared_type, "Vec"@) {
                    Ok(TypeClassification::RepeatedPlain(spec_wrapper_argument(f.declared_type)))
                } else {
                    Ok(TypeClassification::Plain(f.declared_type))
                }
            },
        }
    }
}

/// Whether a string equals a given literal, by contents.
pub(crate) fn text_eq(a: &String, b: &str) -> (r: bool)
    ensures
        r == (a@ == b@),
{
    let owned: String = b.to_owned();
    *a == owned
}

/// The shared wrapper recognizer, on a given wrapper name.
pub fn is_single_arg_wrapper(t: &TypeExpr, wrapper: &str) -> (r: bool)
    ensures
        r == is_wrapper_shape(*t, wrapper@),
{
    match &t.shape {
        TypeShape::Path { qualified, leading_sep, segments, head_name, head_args } => {
            if *qualified || *leading_sep {
                false
            } else if *segments != 1 {
                false
            } else {
                let single = match head_args {
                    HeadArgs::SingleType(_) => true,
                    HeadArgs::NoArgs => false,
                    HeadArgs::OtherArgs => false,
                };
                single && text_eq(head_name, wrapper)
            }
        },
        TypeShape::Other => false,
    }
}

/// Whether the declared type is recognized as the optional wrapper.
pub fn is_optional_wrapper(t: &TypeExpr) -> (r: bool)
    ensures
        r == is_wrapper_shape(*t, "Option"@),
{
    is_single_arg_wrapper(t, "Option")
}

/// Whether the declared type is recognized as the sequence wrapper.
pub fn is_sequence_wrapper(t: &TypeExpr) -> (r: bool)
    ensures
        r == is_wrapper_shape(*t, "Vec"@),
{
    is_single_arg_wrapper(t, "Vec")
}

/// The single type argument of a recognized wrapper.
pub fn wrapper_argument(t: &TypeExpr) -> (r: &TypeExpr)
    requires
        t.shape matches TypeShape::Path { head_args: HeadArgs::SingleType(_), .. },
    ensures
        *r == spec_wrapper_argument(*t),
{
    match &t.shape {
        TypeShape::Path { head_args: HeadArgs::SingleType(inner), .. } => &**inner,
        _ => unreached(),
    }
}

/// The first builder-scoped annotation of a field, if any.
pub fn first_builder_annotation(anns: &Vec<Annotation>) -> (r: Option<&Annotation>)
    ensures
        match r {
            Some(a) => spec_first_builder_annotation(anns@) == Some(*a),
            None => spec_first_builder_annotation(anns@) is None,
        },
{
    let mut i: usize = 0;
    proof {
        assert(anns@.skip(0) =~= anns@);
    }
    while i < anns.len()
        invariant
            0 <= i <= anns@.len(),
            spec_first_builder_annotation(anns@.skip(i as int))
                == spec_first_builder_annotation(anns@),
        decreases anns@.len() - i,
    {
        let a = &anns[i];
        let found = match &a.path_ident {
            Some(n) => text_eq(n, "builder"),
            None => false,
        };
        proof {
            assert(anns@.skip(i as int)[0] == anns@[i as int]);
        }
        if found {
            return Some(a);
        }
        proof {
            assert(anns@.skip(i as int).skip(1) =~= anns@.skip(i as int + 1));
        }
        i = i + 1;
    }
    proof {
        assert(anns@.skip(i as int) =~= Seq::<Annotation>::empty());
    }
    None
}

/// The accumulator name of a builder-scoped annotation, or the fixed
/// rejection when the argument deviates from `each = "<string literal>"`.
pub fn annotation_each_name(a: &Annotation) -> (r: Result<String, Diagnostic>)
    ensures
        match spec_each_name(a.arg) {
            Some(n) => r == Ok::<String, Diagnostic>(n),
            None => r == Err::<String, Diagnostic>(Diagnostic {
                kind: DiagnosticKind::MalformedAccumulatorAnnotation,
                span: a.span,
            }),
        },
{
    let rejection = Diagnostic { kind: DiagnosticKind::MalformedAccumulatorAnnotation, span: a.span };
    match &a.arg {
        AnnotArg::Assign { has_attrs, left, right } => {
            if *has_attrs || left.has_attrs || left.qualified {
                Err(rejection)
            } else {
                let key_ok = match &left.ident {
                    Some(k) => text_eq(k, "each"),
                    None => false,
                };
                if !key_ok {
                    Err(rejection)
                } else {
                    match right {
                        AnnotValue::Str(s) => Ok(s.clone()),
                        AnnotValue::OtherLit => Err(rejection),
                        AnnotValue::NotLit => Err(rejection),
                    }
                }
            }
        },
        AnnotArg::Other => Err(rejection),
    }
}

/// Classify one field: pure and deterministic in the field's declared type
/// and annotation set.
pub fn classify(f: &FieldSchema) -> (r: Result<TypeClassification, Diagnostic>)
    ensures
        r == spec_classification(*f),
{
    if is_optional_wrapper(&f.declared_type) {
        let inner = wrapper_argument(&f.declared_type).duplicate();
        Ok(TypeClassification::OptionalWrapped(inner))
    } else {
        match first_builder_annotation(&f.annotations) {
            Some(a) => {
                if !is_sequence_wrapper(&f.declared_type) {
                    Err(Diagnostic { kind: DiagnosticKind::AccumulatorNeedsSequence, span: a.span })
                } else {
                    match annotation_each_name(a) {
                        Ok(n) => {
                            let inner = wrapper_argument(&f.declared_type).duplicate();
                            Ok(TypeClassification::RepeatedWithAccumulator(inner, n))
                        },
                        Err(e) => Err(e),
                    }
                }
            },
            None => {
                if is_sequence_wrapper(&f.declared_type) {
                    let inner = wrapper_argument(&f.declared_type).duplicate();
                    Ok(TypeClassification::RepeatedPlain(inner))
                } else {
                    Ok(TypeClassification::Plain(f.declared_type.duplicate()))
                }
            },
        }
    }
}

/// Classification is deterministic: any two results that `classify`'s
/// contract admits for the same field are equal.
pub proof fn lemma_classification_deterministic(
    f: FieldSchema,
    r1: Result<TypeClassification, Diagnostic>,
    r2: Result<TypeClassification, Diagnostic>,
)
    requires
        r1 == spec_classification(f),
        r2 == spec_classification(f),
    ensures
        r1 == r2,
{
}

/// An accumulator annotation whose argument has any shape other than
/// `each = "<string literal>"` — wrong key, decorated pieces, a non-string
/// value, or no single assignment at all — is rejected with the fixed
/// diagnostic anchored at that annotation, whatever sequence field it is
/// attached to.
pub proof fn lemma_malformed_annotation_rejected(f: FieldSchema, a: Annotation)
    requires
        is_wrapper_shape(f.declared_type, "Vec"@),
        spec_first_builder_annotation(f.annotations@) == Some(a),
        spec_each_name(a.arg) is None,
    ensures
        spec_classification(f) == Err::<TypeClassification, Diagnostic>(Diagnostic {
            kind: DiagnosticKind::MalformedAccumulatorAnnotation,
            span: a.span,
        }),
{
    reveal_strlit("Vec");
    reveal_strlit("Option");
    assert("Vec"@.len() == 3);
    assert("Option"@.len() == 6);
    assert(!is_wrapper_shape(f.declared_type, "Option"@));
}

} // verus!
