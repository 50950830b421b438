//! Field classification: from a raw field type to its Shape and SemanticKind.

use vstd::prelude::*;

use crate::descriptor::{boolean_marker, leaf_of, Error, FieldDescriptor, RawType, SemanticKind, Shape};

verus! {

/// Whether a raw type has a supported field form: a simple named type, or a
/// fixed-length array whose element chain ends in a named type.
pub open spec fn classifiable(t: RawType) -> bool {
    (t is Path || t is Array) && leaf_of(t) is Some
}

/// The semantic kind a classifiable raw type resolves to: context-dependent
/// exactly when its leaf identifier is the boolean-signal marker.
pub open spec fn kind_of(t: RawType) -> SemanticKind {
    if leaf_of(t) == Some(boolean_marker()) {
        SemanticKind::ContextDependent
    } else {
        SemanticKind::Plain
    }
}

/// Whether the classified shape `s` is the one raw type `t` calls for.
pub open spec fn shape_matches(t: RawType, s: Shape) -> bool {
    match t {
        RawType::Path { leaf } => s matches Shape::Scalar { leaf: l } && l@ == leaf@,
        RawType::Array { elem, len } => s matches Shape::FixedArray { leaf: l, len: n }
            && Some(l@) == leaf_of(*elem) && n == len,
        _ => false,
    }
}

/// Classifies a raw type into its Shape: a simple named type is a scalar, a
/// fixed-length array of named elements is a fixed array, and every other
/// form is an unsupported field form.
pub fn classify_type(t: &RawType) -> (r: Result<Shape, Error>)
    ensures
        r is Ok <==> classifiable(*t),
        r matches Ok(s) ==> shape_matches(*t, s),
        r is Err ==> r == Err::<Shape, Error>(Error::UnsupportedFieldForm),
{
    match t {
        RawType::Path { leaf } => Ok(Shape::Scalar { leaf: leaf.clone() }),
        RawType::Array { elem, len } => {
            match crate::descriptor::leaf_ident(elem) {
                Some(l) => Ok(Shape::FixedArray { leaf: l.clone(), len: *len }),
                None => Err(Error::UnsupportedFieldForm),
            }
        },
        _ => Err(Error::UnsupportedFieldForm),
    }
}

/// Resolves the semantic kind of a raw type: context-dependent exactly when
/// its leaf identifier equals the boolean-signal marker, independent of shape.
pub fn semantic_kind(t: &RawType) -> (r: SemanticKind)
    ensures
        r == kind_of(*t),
{
    let marker: String = String::from_str("Boolean");
    match crate::descriptor::leaf_ident(t) {
        Some(l) => {
            if *l == marker {
                SemanticKind::ContextDependent
            } else {
                SemanticKind::Plain
            }
        },
        None => SemanticKind::Plain,
    }
}

/// Whether `fd` is the classified descriptor of a field named `name` of raw
/// type `t`.
pub open spec fn field_classified(name: Seq<char>, t: RawType, fd: FieldDescriptor) -> bool {
    &&& fd.name@ == name
    &&& shape_matches(t, fd.shape)
    &&& fd.kind == kind_of(t)
}

/// Classifies one named field: determines its Shape and SemanticKind, or
/// rejects an unsupported field form.
pub fn classify_field(name: &String, t: &RawType) -> (r: Result<FieldDescriptor, Error>)
    ensures
        r is Ok <==> classifiable(*t),
        r matches Ok(fd) ==> field_classified(name@, *t, fd),
        r is Err ==> r == Err::<FieldDescriptor, Error>(Error::UnsupportedFieldForm),
{
    let shape = classify_type(t)?;
    let kind = semantic_kind(t);
    Ok(FieldDescriptor { name: name.clone(), shape, kind })
}

} // verus!
