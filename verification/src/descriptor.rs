//! Data model of the generator: raw structural inputs, classified field
//! descriptors, generic parameters, and the fatal error kinds.

use vstd::prelude::*;

verus! {

/// A raw field type, as the host type grammar presents it after parsing.
#[derive(Debug)]
pub enum RawType {
    /// A simple named/path type; `leaf` is its final identifier.
    Path { leaf: String },
    /// A fixed-length homogeneous sequence of `len` elements of type `elem`.
    Array { elem: Box<RawType>, len: usize },
    /// A reference type.
    Reference,
    /// A dynamically sized slice type.
    Slice,
    /// A tuple type.
    Tuple,
    /// A function type.
    Function,
    /// Any other form the host grammar can present.
    Other,
}

/// A raw field: its identifier, if it has one, and its declared type.
#[derive(Debug)]
pub struct RawField {
    pub name: Option<String>,
    pub ty: RawType,
}

/// The container shape of a raw input type.
#[derive(Debug)]
pub enum RawData {
    /// A single-variant record with (nominally) named fields.
    Record { fields: Vec<RawField> },
    /// A single-variant record with positional (tuple) fields.
    TupleRecord,
    /// A multi-variant (enumerated) type, or anything else that is no record.
    MultiVariant,
}

/// A raw input type: name, declared generic parameters, container data.
#[derive(Debug)]
pub struct RawInput {
    pub name: String,
    pub generics: Vec<GenericParam>,
    pub data: RawData,
}

/// A generic parameter of the subject type: its name, and whether it carries
/// the recognized "engine" context trait bound.
#[derive(Debug)]
pub struct GenericParam {
    pub name: String,
    pub engine_bound: bool,
}

/// The fatal error kinds. Every one aborts generation immediately.
#[derive(Clone, Copy, Debug, PartialEq, Eq, Structural)]
pub enum Error {
    /// The input is not a single-variant, named-field, non-empty record.
    UnsupportedContainerShape,
    /// A field lacks a name.
    MissingFieldIdentifier,
    /// A field's type is neither a fixed-length sequence of named elements
    /// nor a simple named type.
    UnsupportedFieldForm,
}

impl Error {
    /// The diagnostic message attached to the failure, as the enclosing
    /// compilation reports it at the site of the type definition.
    pub fn message(&self) -> (r: &'static str)
        ensures
            *self is UnsupportedContainerShape ==> r@
                == "only non-empty data structs with named fields are allowed"@,
            *self is MissingFieldIdentifier ==> r@ == "a field ident"@,
            *self is UnsupportedFieldForm ==> r@ == "only array and path types are allowed"@,
    {
        match self {
            Error::UnsupportedContainerShape => "only non-empty data structs with named fields are allowed",
            Error::MissingFieldIdentifier => "a field ident",
            Error::UnsupportedFieldForm => "only array and path types are allowed",
        }
    }
}

/// The shape of a classified field: a scalar of a named type, or a
/// fixed-length array of elements of a named type.
#[derive(Clone, Debug)]
pub enum Shape {
    Scalar { leaf: String },
    FixedArray { leaf: String, len: usize },
}

/// Whether a field compares by native equality or by the context-aware
/// comparison under the engine parameter.
#[derive(Clone, Copy, Debug, PartialEq, Eq, Structural)]
pub enum SemanticKind {
    Plain,
    ContextDependent,
}

/// A classified field.
#[derive(Clone, Debug)]
pub struct FieldDescriptor {
    pub name: String,
    pub shape: Shape,
    pub kind: SemanticKind,
}

/// A fully read and classified input type.
#[derive(Clone, Debug)]
pub struct StructDescriptor {
    pub name: String,
    pub generics: Vec<GenericParam>,
    pub fields: Vec<FieldDescriptor>,
}

impl Clone for GenericParam {
    /// Cloning a generic parameter keeps its name and bound.
    fn clone(&self) -> (r: Self)
        ensures
            r == *self,
    {
        GenericParam { name: self.name.clone(), engine_bound: self.engine_bound }
    }
}

/// The leaf-type identifier that marks a circuit-native boolean signal.
pub open spec fn boolean_marker() -> Seq<char> {
    "Boolean"@
}

/// The leaf identifier of a raw type: the final identifier of a path, found
/// through any number of array layers; `None` for every other form.
pub open spec fn leaf_of(t: RawType) -> Option<Seq<char>>
    decreases t,
{
    match t {
        RawType::Path { leaf } => Some(leaf@),
        RawType::Array { elem, len: _ } => leaf_of(*elem),
        _ => None,
    }
}

/// Returns the leaf identifier of `t`, or `None` when `t` has none.
pub fn leaf_ident(t: &RawType) -> (r: Option<&String>)
    ensures
        match r {
            Some(s) => leaf_of(*t) == Some(s@),
            None => leaf_of(*t) is None,
        },
    decreases *t,
{
    match t {
        RawType::Path { leaf } => Some(leaf),
        RawType::Array { elem, len: _ } => leaf_ident(elem),
        _ => None,
    }
}

} // verus!
