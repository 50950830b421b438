//! The invocation boundary: one call per subject type, from raw structural
//! input to the generated comparison procedure, or to the first fatal error.

use vstd::prelude::*;

use crate::descriptor::{Error, RawData, RawInput, StructDescriptor};
use crate::emitter::{emit_plan, plan_of, GenPlan};
use crate::normalizer::{at_most_one_engine, exactly_one_engine, has_engine, normalize_generics, synthesized_engine_name};
use crate::reader::{container_supported, descriptor_of, first_field_error, read_descriptor};
use crate::render::{impl_text, render_impl};

verus! {

/// Everything one generation produces: the classified descriptor, the
/// normalized generic parameters, the comparison plan, and the generated
/// implementation text.
pub struct Generated {
    pub descriptor: StructDescriptor,
    pub header: Vec<crate::descriptor::GenericParam>,
    pub subject: Vec<crate::descriptor::GenericParam>,
    pub inserted: bool,
    pub plan: GenPlan,
    pub text: String,
}

/// Generates the structural-equality procedure for one raw input type: reads
/// and classifies its fields, normalizes its generic parameters, and emits
/// the comparison plan and implementation text. Succeeds exactly on a
/// single-variant, named-field, non-empty record whose every field is a
/// simple named type or a fixed-length array of such elements; the first
/// violation, in container-then-declaration order, is the error returned.
pub fn generate(input: &RawInput) -> (r: Result<Generated, Error>)
    requires
        at_most_one_engine(input.generics@),
    ensures
        r is Ok <==> container_supported(input.data) && (input.data matches RawData::Record {
            fields,
        } && first_field_error(fields@) is None),
        !container_supported(input.data) ==> r == Err::<Generated, Error>(
            Error::UnsupportedContainerShape,
        ),
        (match input.data {
            RawData::Record { fields } => fields@.len() > 0 ==> (match first_field_error(fields@) {
                Some(e) => r == Err::<Generated, Error>(e),
                None => true,
            }),
            _ => true,
        }),
        r matches Ok(g) ==> {
            &&& descriptor_of(*input, g.descriptor)
            &&& g.inserted == !has_engine(input.generics@)
            &&& g.subject@ == input.generics@
            &&& !g.inserted ==> g.header@ == input.generics@
            &&& g.inserted ==> g.header@.len() == input.generics@.len() + 1
                && g.header@[0].name@ == synthesized_engine_name() && g.header@[0].engine_bound
                && g.header@.skip(1) == input.generics@
            &&& exactly_one_engine(g.header@)
            &&& plan_of(g.descriptor.fields@, g.plan)
            &&& g.text@ == impl_text(input.name@, g.header@, g.subject@, g.descriptor.fields@)
        },
{
    let descriptor = read_descriptor(input)?;
    let normalized = normalize_generics(&input.generics);
    let plan = emit_plan(&descriptor.fields);
    let text = render_impl(&descriptor.name, &normalized.header, &normalized.subject, &descriptor.fields);
    Ok(Generated {
        descriptor,
        header: normalized.header,
        subject: normalized.subject,
        inserted: normalized.inserted,
        plan,
        text,
    })
}

} // verus!
