//! Code emitter, structural half: assembles the comparison plan of the
//! generated procedure from the classified field list, in declaration order.
//!
//! The plan mirrors the two passes of the generated body: first one named
//! local binding per fixed-array field, computed unconditionally; then one
//! conjunction term per field, a direct comparison for a scalar field and a
//! reference to the field's binding for an array field.

use vstd::prelude::*;

use crate::descriptor::{FieldDescriptor, SemanticKind, Shape};

verus! {

/// A local binding of the array pass: the elementwise comparison of the
/// fixed-array field at `field_idx`, context-aware iff `ctx`.
#[derive(Clone, Copy, Debug, PartialEq, Eq, Structural)]
pub struct ArrayBinding {
    pub field_idx: usize,
    pub ctx: bool,
}

/// One term of the conjunction pass.
#[derive(Clone, Copy, Debug, PartialEq, Eq, Structural)]
pub enum Term {
    /// Direct comparison of the scalar field at `field_idx`, context-aware
    /// iff `ctx`.
    Scalar { field_idx: usize, ctx: bool },
    /// Reference to the array binding at `binding_idx`.
    Binding { binding_idx: usize },
}

/// The comparison plan of a generated procedure: the array bindings and the
/// conjunction terms, both in field declaration order.
#[derive(Clone, Debug)]
pub struct GenPlan {
    pub bindings: Vec<ArrayBinding>,
    pub terms: Vec<Term>,
}

/// Whether a field compares context-aware: exactly the context-dependent ones.
pub open spec fn ctx_of(fd: FieldDescriptor) -> bool {
    fd.kind is ContextDependent
}

/// How many of the first `i` fields are fixed arrays: the index their
/// bindings occupy in the array pass.
pub open spec fn arrays_before(fields: Seq<FieldDescriptor>, i: int) -> int
    decreases i,
{
    if i <= 0 {
        0
    } else {
        arrays_before(fields, i - 1) + if fields[i - 1].shape is FixedArray {
            1int
        } else {
            0int
        }
    }
}

/// Whether `plan` is exactly the plan the emitter owes `fields`: one term per
/// field in declaration order — a direct comparison for a scalar field, a
/// reference to the field's binding for an array field — and one binding per
/// array field, in declaration order.
pub open spec fn plan_of(fields: Seq<FieldDescriptor>, plan: GenPlan) -> bool {
    &&& plan.terms@.len() == fields.len()
    &&& plan.bindings@.len() == arrays_before(fields, fields.len() as int)
    &&& forall|i: int|
        0 <= i < fields.len() ==> match (#[trigger] fields[i]).shape {
            Shape::Scalar { .. } => plan.terms@[i] == (Term::Scalar {
                field_idx: i as usize,
                ctx: ctx_of(fields[i]),
            }),
            Shape::FixedArray { .. } => {
                &&& plan.terms@[i] == (Term::Binding {
                    binding_idx: arrays_before(fields, i) as usize,
                })
                &&& plan.bindings@[arrays_before(fields, i)] == (ArrayBinding {
                    field_idx: i as usize,
                    ctx: ctx_of(fields[i]),
                })
            },
        }
}

/// The binding indices of earlier fields stay within the array pass: the
/// count of arrays before `i` never passes the count before `j` when `i <= j`.
pub proof fn lemma_arrays_before_monotone(fields: Seq<FieldDescriptor>, i: int, j: int)
    requires
        i <= j,
    ensures
        arrays_before(fields, i) <= arrays_before(fields, j),
        0 <= i && fields[i].shape is FixedArray && i < j ==> arrays_before(fields, i)
            < arrays_before(fields, j),
    decreases j - i,
{
    if i < j {
        lemma_arrays_before_monotone(fields, i + 1, j);
    }
}

/// Counts never exceed the number of fields scanned.
pub proof fn lemma_arrays_before_bound(fields: Seq<FieldDescriptor>, i: int)
    ensures
        0 <= arrays_before(fields, i) <= if i <= 0 {
            0int
        } else {
            i
        },
    decreases i,
{
    if i > 0 {
        lemma_arrays_before_bound(fields, i - 1);
    }
}

/// Emits the comparison plan for a classified field list: the array pass in
/// declaration order, then one conjunction term per field in declaration
/// order.
#[verifier::loop_isolation(false)]
pub fn emit_plan(fields: &Vec<FieldDescriptor>) -> (r: GenPlan)
    ensures
        plan_of(fields@, r),
{
    let mut bindings: Vec<ArrayBinding> = Vec::new();
    let mut terms: Vec<Term> = Vec::new();
    let mut i: usize = 0;
    while i < fields.len()
        invariant
            0 <= i <= fields@.len(),
            terms@.len() == i as int,
            bindings@.len() == arrays_before(fields@, i as int),
            forall|k: int|
                0 <= k < i as int ==> match (#[trigger] fields@[k]).shape {
                    Shape::Scalar { .. } => terms@[k] == (Term::Scalar {
                        field_idx: k as usize,
                        ctx: ctx_of(fields@[k]),
                    }),
                    Shape::FixedArray { .. } => {
                        &&& terms@[k] == (Term::Binding {
                            binding_idx: arrays_before(fields@, k) as usize,
                        })
                        &&& bindings@[arrays_before(fields@, k)] == (ArrayBinding {
                            field_idx: k as usize,
                            ctx: ctx_of(fields@[k]),
                        })
                    },
                },
        decreases fields@.len() - i,
    {
        proof {
            lemma_arrays_before_bound(fields@, i as int);
        }
        let fd = &fields[i];
        let ctx = match fd.kind {
            SemanticKind::ContextDependent => true,
            SemanticKind::Plain => false,
        };
        match fd.shape {
            Shape::Scalar { .. } => {
                terms.push(Term::Scalar { field_idx: i, ctx });
            },
            Shape::FixedArray { .. } => {
                terms.push(Term::Binding { binding_idx: bindings.len() });
                bindings.push(ArrayBinding { field_idx: i, ctx });
            },
        }
        i = i + 1;
        proof {
            assert forall|k: int| 0 <= k < i as int implies 0 <= #[trigger] arrays_before(
                fields@,
                k,
            ) <= k by {
                lemma_arrays_before_bound(fields@, k);
            }
            assert forall|k: int|
                0 <= k < i as int - 1 && (#[trigger] fields@[k]).shape is FixedArray implies arrays_before(
                fields@,
                k,
            ) < arrays_before(fields@, i as int - 1) by {
                lemma_arrays_before_monotone(fields@, k, i as int - 1);
            }
        }
    }
    GenPlan { bindings, terms }
}

} // verus!
