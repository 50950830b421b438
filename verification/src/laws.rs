//! The laws of the emitted plan: what the generated procedure's result means
//! in terms of the classified fields, for every engine context.

use vstd::prelude::*;

use crate::descriptor::{FieldDescriptor, SemanticKind, Shape};
use crate::emitter::{arrays_before, ctx_of, lemma_arrays_before_bound, lemma_arrays_before_monotone, plan_of, GenPlan, Term};
use crate::eval::{array_eq, binding_value, elem_eq, field_eq, plan_value, records_eq, term_value, FieldValue};

verus! {

/// The value of a plan emitted for `fields`, on record values of matching
/// length, is exactly the structural equality of the two records: the
/// conjunction, in declaration order, of every field's comparison — direct
/// for scalar fields, elementwise for fixed-array fields, context-aware
/// exactly for the context-dependent ones — under any context comparison.
pub proof fn lemma_plan_value_is_records_eq(
    fields: Seq<FieldDescriptor>,
    plan: GenPlan,
    cmp: spec_fn(u64, u64) -> bool,
    a: Seq<FieldValue>,
    b: Seq<FieldValue>,
)
    requires
        plan_of(fields, plan),
        a.len() == fields.len(),
        b.len() == fields.len(),
        fields.len() <= usize::MAX,
    ensures
        plan_value(plan, cmp, a, b) == records_eq(fields, cmp, a, b),
{
    assert forall|i: int| 0 <= i < fields.len() implies 0 <= #[trigger] arrays_before(fields, i)
        <= i by {
        lemma_arrays_before_bound(fields, i);
    }
    lemma_arrays_before_bound(fields, fields.len() as int);
    if plan_value(plan, cmp, a, b) {
        assert forall|i: int| 0 <= i < fields.len() implies field_eq(
            #[trigger] fields[i],
            cmp,
            a[i],
            b[i],
        ) by {
            assert(term_value(plan.terms@[i], plan, cmp, a, b));
        }
    }
    if records_eq(fields, cmp, a, b) {
        assert forall|i: int| 0 <= i < plan.terms@.len() implies term_value(
            #[trigger] plan.terms@[i],
            plan,
            cmp,
            a,
            b,
        ) by {
            assert(field_eq(fields[i], cmp, a[i], b[i]));
            if fields[i].shape is FixedArray {
                lemma_arrays_before_monotone(fields, i, fields.len() as int);
            }
        }
    }
}

/// For a record of only plain scalar fields, the generated result is the
/// conjunction, in declaration order, of each field's native equality.
pub proof fn lemma_plain_scalars_native_conjunction(
    fields: Seq<FieldDescriptor>,
    plan: GenPlan,
    cmp: spec_fn(u64, u64) -> bool,
    a: Seq<FieldValue>,
    b: Seq<FieldValue>,
)
    requires
        plan_of(fields, plan),
        a.len() == fields.len(),
        b.len() == fields.len(),
        fields.len() <= usize::MAX,
        forall|i: int|
            0 <= i < fields.len() ==> (#[trigger] fields[i]).shape is Scalar && fields[i].kind
                is Plain,
    ensures
        plan_value(plan, cmp, a, b) == (forall|i: int|
            0 <= i < fields.len() ==> match (#[trigger] a[i], b[i]) {
                (FieldValue::Scalar(x), FieldValue::Scalar(y)) => x == y,
                _ => false,
            }),
{
    lemma_plan_value_is_records_eq(fields, plan, cmp, a, b);
    assert forall|i: int| 0 <= i < fields.len() implies field_eq(
        #[trigger] fields[i],
        cmp,
        a[i],
        b[i],
    ) == (match (a[i], b[i]) {
        (FieldValue::Scalar(x), FieldValue::Scalar(y)) => x == y,
        _ => false,
    }) by {
        assert(!ctx_of(fields[i]));
    }
    if records_eq(fields, cmp, a, b) {
        assert forall|i: int| 0 <= i < fields.len() implies match (#[trigger] a[i], b[i]) {
            (FieldValue::Scalar(x), FieldValue::Scalar(y)) => x == y,
            _ => false,
        } by {
            assert(field_eq(fields[i], cmp, a[i], b[i]));
        }
    }
}

/// The local binding of a fixed-array field over arrays of a shared length is
/// true exactly when all corresponding element pairs compare equal; one
/// differing pair makes it false.
pub proof fn lemma_array_binding_iff_all_elements(
    bd: crate::emitter::ArrayBinding,
    cmp: spec_fn(u64, u64) -> bool,
    a: Seq<FieldValue>,
    b: Seq<FieldValue>,
    xs: Seq<u64>,
    ys: Seq<u64>,
)
    requires
        bd.field_idx < a.len(),
        bd.field_idx < b.len(),
        a[bd.field_idx as int] matches FieldValue::Array(v) && v@ == xs,
        b[bd.field_idx as int] matches FieldValue::Array(v) && v@ == ys,
        xs.len() == ys.len(),
    ensures
        binding_value(bd, cmp, a, b) <==> (forall|k: int|
            0 <= k < xs.len() ==> elem_eq(bd.ctx, cmp, #[trigger] xs[k], ys[k])),
{
}

/// The overall result is false whenever any single field differs, whatever
/// that field's position.
pub proof fn lemma_any_differing_field_falsifies(
    fields: Seq<FieldDescriptor>,
    plan: GenPlan,
    cmp: spec_fn(u64, u64) -> bool,
    a: Seq<FieldValue>,
    b: Seq<FieldValue>,
    i: int,
)
    requires
        plan_of(fields, plan),
        a.len() == fields.len(),
        b.len() == fields.len(),
        fields.len() <= usize::MAX,
        0 <= i < fields.len(),
        !field_eq(fields[i], cmp, a[i], b[i]),
    ensures
        !plan_value(plan, cmp, a, b),
{
    lemma_plan_value_is_records_eq(fields, plan, cmp, a, b);
}

} // verus!
