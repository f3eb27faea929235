//! The record declaration as the host compiler hands it over, reduced to the
//! plain values that the generator reads.
use vstd::prelude::*;

verus! {

/// One generic argument of a path segment, kept as written.
#[derive(Clone, Debug, PartialEq, Eq)]
pub enum GenericArg {
    /// A type argument (`u8`, `Vec<String>`).
    Type(String),
    /// A lifetime, a constant or an associated-type binding.
    Other(String),
}

/// What follows the identifier of a path segment.
#[derive(Clone, Debug, PartialEq, Eq)]
pub enum SegmentArgs {
    /// No arguments: `String`.
    Plain,
    /// Angle-bracketed arguments: `Option<u8>`.
    Angle(Vec<GenericArg>),
    /// Parenthesized arguments: `Fn(u8) -> u8`.
    Paren,
}

#[derive(Clone, Debug, PartialEq, Eq)]
pub struct PathSegment {
    pub ident: String,
    pub args: SegmentArgs,
}

/// The outer shape of a type expression.
#[derive(Clone, Debug, PartialEq, Eq)]
pub enum TypeShape {
    /// A path type such as `std::vec::Vec<u8>`, one entry per segment.
    Path(Vec<PathSegment>),
    /// Any other type: a tuple, a reference, an array, ...
    Other,
}

/// A field type: its text as written, and its outer shape.
#[derive(Clone, Debug, PartialEq, Eq)]
pub struct TypeExpr {
    pub text: String,
    pub shape: TypeShape,
}

/// The value bound to a key inside an annotation's argument list.
#[derive(Clone, Debug, PartialEq, Eq)]
pub enum NestedValue {
    /// `key = "text"`: the string literal's value.
    Str(String),
    /// `key = <anything but a string literal>`.
    Other,
    /// `key` alone, or `key(...)`.
    Absent,
}

/// One entry of an annotation's argument list: `each = "item"`.
#[derive(Clone, Debug, PartialEq, Eq)]
pub struct NestedItem {
    /// The key's path as written (`each`, `a::b`).
    pub key: String,
    pub value: NestedValue,
}

/// The arguments of an annotation.
#[derive(Clone, Debug, PartialEq, Eq)]
pub enum AnnotationArgs {
    /// `#[name]`.
    Bare,
    /// `#[name(k = v, ...)]`, with each entry parsed.
    List(Vec<NestedItem>),
    /// `#[name = v]`, or a list whose entries are not `key = value` items.
    Other,
}

/// One annotation on a field: `#[builder(each = "arg")]`.
#[derive(Clone, Debug, PartialEq, Eq)]
pub struct Annotation {
    /// The annotation's path as written (`builder`, `serde`, `a::b`).
    pub path: String,
    pub args: AnnotationArgs,
}

#[derive(Clone, Debug, PartialEq, Eq)]
pub struct FieldDecl {
    pub ident: String,
    pub ty: TypeExpr,
    pub annotations: Vec<Annotation>,
}

/// The body of the declaration that the generator is applied to.
#[derive(Clone, Debug, PartialEq, Eq)]
pub enum RecordBody {
    /// A struct with named fields, in declaration order.
    Named(Vec<FieldDecl>),
    /// A tuple or unit struct, an enum or a union.
    Other,
}

#[derive(Clone, Debug, PartialEq, Eq)]
pub struct RecordDecl {
    pub name: String,
    pub body: RecordBody,
}

} // verus!
