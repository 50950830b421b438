//! Type descriptor reader: turns a raw structural input into an ordered,
//! classified StructDescriptor, rejecting unsupported shapes.

use vstd::prelude::*;

use crate::classifier::{classifiable, classify_field, field_classified};
use crate::descriptor::{Error, FieldDescriptor, GenericParam, RawData, RawField, RawInput, StructDescriptor};

verus! {

/// The first violation a single raw field carries: a missing identifier is
/// reported before an unsupported field form.
pub open spec fn field_error(f: RawField) -> Option<Error> {
    if f.name is None {
        Some(Error::MissingFieldIdentifier)
    } else if !classifiable(f.ty) {
        Some(Error::UnsupportedFieldForm)
    } else {
        None
    }
}

/// The first violation among the fields from index `i` on, scanning in
/// declaration order; `None` when every such field is well-formed.
pub open spec fn first_field_error_from(fields: Seq<RawField>, i: int) -> Option<Error>
    decreases fields.len() - i,
{
    if i < 0 || i >= fields.len() {
        None
    } else if field_error(fields[i]) is Some {
        field_error(fields[i])
    } else {
        first_field_error_from(fields, i + 1)
    }
}

/// The first violation among all fields, in declaration order.
pub open spec fn first_field_error(fields: Seq<RawField>) -> Option<Error> {
    first_field_error_from(fields, 0)
}

/// Whether the input's container shape is supported: a single-variant record
/// with at least one field.
pub open spec fn container_supported(data: RawData) -> bool {
    data matches RawData::Record { fields } && fields@.len() > 0
}

/// Whether `d` is the faithful, classified descriptor of `input`: same name,
/// the declared generic parameters unchanged, and one classified field per
/// raw field, in declaration order.
pub open spec fn descriptor_of(input: RawInput, d: StructDescriptor) -> bool {
    &&& d.name@ == input.name@
    &&& d.generics@ == input.generics@
    &&& input.data matches RawData::Record { fields } && {
        &&& d.fields@.len() == fields@.len()
        &&& forall|i: int|
            0 <= i < fields@.len() ==> {
                &&& (#[trigger] fields@[i]).name matches Some(n)
                &&& field_classified(n@, fields@[i].ty, d.fields@[i])
            }
    }
}

/// Reads a raw input into a classified StructDescriptor. The input must be a
/// single-variant record with at least one field, every field must carry an
/// identifier, and every field type must classify; the first violation, in
/// container-then-declaration order, is the error returned.
#[verifier::loop_isolation(false)]
pub fn read_descriptor(input: &RawInput) -> (r: Result<StructDescriptor, Error>)
    ensures
        r is Ok <==> container_supported(input.data) && (input.data matches RawData::Record {
            fields,
        } && first_field_error(fields@) is None),
        r matches Ok(d) ==> descriptor_of(*input, d),
        !container_supported(input.data) ==> r == Err::<StructDescriptor, Error>(
            Error::UnsupportedContainerShape,
        ),
        (match input.data {
            RawData::Record { fields } => fields@.len() > 0 ==> (match first_field_error(fields@) {
                Some(e) => r == Err::<StructDescriptor, Error>(e),
                None => true,
            }),
            _ => true,
        }),
{
    match &input.data {
        RawData::Record { fields } => {
            if fields.len() == 0 {
                return Err(Error::UnsupportedContainerShape);
            }
            let mut out: Vec<FieldDescriptor> = Vec::new();
            let mut i: usize = 0;
            while i < fields.len()
                invariant
                    0 <= i <= fields@.len(),
                    out@.len() == i as int,
                    first_field_error_from(fields@, 0) == first_field_error_from(
                        fields@,
                        i as int,
                    ),
                    forall|j: int|
                        0 <= j < i as int ==> {
                            &&& (#[trigger] fields@[j]).name matches Some(n)
                            &&& field_classified(n@, fields@[j].ty, out@[j])
                        },
                decreases fields@.len() - i,
            {
                proof {
                    lemma_first_error_step(fields@, i as int);
                }
                let f = &fields[i];
                match &f.name {
                    None => {
                        return Err(Error::MissingFieldIdentifier);
                    },
                    Some(n) => {
                        let fd = classify_field(n, &f.ty)?;
                        out.push(fd);
                    },
                }
                i = i + 1;
            }
            Ok(StructDescriptor {
                name: input.name.clone(),
                generics: clone_params(&input.generics),
                fields: out,
            })
        },
        RawData::TupleRecord => Err(Error::UnsupportedContainerShape),
        RawData::MultiVariant => Err(Error::UnsupportedContainerShape),
    }
}

/// Scanning from `i` finds the error of field `i` first, when it has one, and
/// otherwise whatever the rest yields.
proof fn lemma_first_error_step(fields: Seq<RawField>, i: int)
    requires
        0 <= i < fields.len(),
    ensures
        first_field_error_from(fields, i) == if field_error(fields[i]) is Some {
            field_error(fields[i])
        } else {
            first_field_error_from(fields, i + 1)
        },
{
}

/// Clones a generic parameter list element for element.
pub fn clone_params(params: &Vec<GenericParam>) -> (r: Vec<GenericParam>)
    ensures
        r@ == params@,
{
    let mut out: Vec<GenericParam> = Vec::new();
    let mut i: usize = 0;
    while i < params.len()
        invariant
            0 <= i <= params@.len(),
            out@ == params@.subrange(0, i as int),
        decreases params@.len() - i,
    {
        out.push(params[i].clone());
        proof {
            assert(out@ =~= params@.subrange(0, i as int + 1));
        }
        i = i + 1;
    }
    proof {
        assert(out@ =~= params@);
    }
    out
}

} // verus!
