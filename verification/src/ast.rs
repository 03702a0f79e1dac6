//! The structural model of a declaration: the record's name, its fields,
//! each field's declared type expression and its attached annotations.
//!
//! A type expression keeps its rendered source text alongside the structure
//! that classification inspects: whether the type is a path without a
//! qualifying prefix or a leading path separator, how many segments the path
//! has, the head segment's name, and its angle-bracketed arguments.

use vstd::prelude::*;

verus! {

/// A type expression as declared on a field.
///
/// `text` is the rendered source text of the whole expression; `shape` is
/// the structure that the field classifier inspects.
#[derive(PartialEq, Eq, Debug)]
pub struct TypeExpr {
    pub text: String,
    pub shape: TypeShape,
}

/// The structure of a type expression, as far as classification reads it.
#[derive(PartialEq, Eq, Debug)]
pub enum TypeShape {
    /// A path type: `segments` counts the path's segments, `head_name` is
    /// the first segment's name and `head_args` its bracketed arguments.
    Path {
        /// A qualifying `<T as Trait>::` prefix is present.
        qualified: bool,
        /// The path starts with a leading path separator.
        leading_sep: bool,
        segments: usize,
        head_name: String,
        head_args: HeadArgs,
    },
    /// Any non-path type expression.
    Other,
}

/// The bracketed arguments of a path segment.
#[derive(PartialEq, Eq, Debug)]
pub enum HeadArgs {
    /// No argument list at all.
    NoArgs,
    /// Exactly one angle-bracketed argument, and it is a type.
    SingleType(Box<TypeExpr>),
    /// Any other argument list: empty brackets, several arguments, a
    /// non-type argument, or parenthesized arguments.
    OtherArgs,
}

/// A metadata annotation attached to a field.
#[derive(PartialEq, Eq, Debug)]
pub struct Annotation {
    /// Identifies where the annotation stands in the source.
    pub span: usize,
    /// The annotation's path, when it is a single bare identifier.
    pub path_ident: Option<String>,
    /// The annotation's argument tokens.
    pub arg: AnnotArg,
}

/// The arguments of an annotation, parsed as a single expression.
#[derive(PartialEq, Eq, Debug)]
pub enum AnnotArg {
    /// A single assignment expression `left = right`.
    Assign { has_attrs: bool, left: AnnotPath, right: AnnotValue },
    /// Tokens of any other form: another kind of expression, several
    /// expressions, or tokens that are no expression at all.
    Other,
}

/// The left side of an assignment inside an annotation.
#[derive(PartialEq, Eq, Debug)]
pub struct AnnotPath {
    /// The path expression carries its own attributes.
    pub has_attrs: bool,
    /// The path has a qualifying prefix.
    pub qualified: bool,
    /// The path's name, when it is a single bare identifier.
    pub ident: Option<String>,
}

/// The right side of an assignment inside an annotation.
#[derive(PartialEq, Eq, Debug)]
pub enum AnnotValue {
    /// A string literal and its contents.
    Str(String),
    /// A literal of any other kind.
    OtherLit,
    /// Not a literal expression.
    NotLit,
}

/// One named field of a record: its name, declared type and annotations.
#[derive(PartialEq, Eq, Debug)]
pub struct FieldSchema {
    pub name: String,
    /// Identifies where the field stands in the source.
    pub span: usize,
    pub declared_type: TypeExpr,
    pub annotations: Vec<Annotation>,
}

/// A top-level type declaration, as handed in by the host compiler.
#[derive(PartialEq, Eq, Debug)]
pub enum Declaration {
    Struct { name: String, span: usize, fields: StructFields },
    Enum { name: String, span: usize },
    Union { name: String, span: usize },
}

/// The field list of a struct declaration.
#[derive(PartialEq, Eq, Debug)]
pub enum StructFields {
    Named(Vec<FieldSchema>),
    Unnamed,
    Unit,
}

impl TypeExpr {
    /// An exact copy: the duplicate equals the original.
    pub fn duplicate(&self) -> (r: TypeExpr)
        ensures
            r == *self,
        decreases *self,
    {
        TypeExpr { text: self.text.clone(), shape: self.shape.duplicate() }
    }
}

impl TypeShape {
    /// An exact copy: the duplicate equals the original.
    pub fn duplicate(&self) -> (r: TypeShape)
        ensures
            r == *self,
        decreases *self,
    {
        match self {
            TypeShape::Path { qualified, leading_sep, segments, head_name, head_args } => {
                TypeShape::Path {
                    qualified: *qualified,
                    leading_sep: *leading_sep,
                    segments: *segments,
                    head_name: head_name.clone(),
                    head_args: head_args.duplicate(),
                }
            },
            TypeShape::Other => TypeShape::Other,
        }
    }
}

impl HeadArgs {
    /// An exact copy: the duplicate equals the original.
    pub fn duplicate(&self) -> (r: HeadArgs)
        ensures
            r == *self,
        decreases *self,
    {
        match self {
            HeadArgs::NoArgs => HeadArgs::NoArgs,
            HeadArgs::SingleType(inner) => HeadArgs::SingleType(Box::new(inner.duplicate())),
            HeadArgs::OtherArgs => HeadArgs::OtherArgs,
        }
    }
}

} // verus!
