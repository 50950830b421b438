//! Evaluation semantics of emitted comparison plans: what the generated
//! procedure returns on a pair of record values, together with an executable
//! evaluator that follows the generated body — the array pass computed
//! eagerly and unconditionally, then the conjunction pass in declaration
//! order, stopping at the first false term.

use vstd::prelude::*;

use crate::emitter::{ArrayBinding, GenPlan, Term};

verus! {

/// The value a record holds in one field: a scalar element, or a
/// fixed-length array of elements. Elements stand for circuit values by an
/// integer encoding.
#[derive(Clone, Debug)]
pub enum FieldValue {
    Scalar(u64),
    Array(Vec<u64>),
}

/// A stand-in engine context: two boolean-signal encodings compare equal
/// under it exactly when they are congruent modulo the engine's modulus.
#[derive(Clone, Copy, Debug, PartialEq, Eq, Structural)]
pub struct Engine {
    pub modulus: u64,
}

/// A well-formed engine has a positive modulus.
pub open spec fn engine_wf(e: Engine) -> bool {
    e.modulus > 0
}

/// What the engine's context-aware comparison returns on two elements.
pub open spec fn ctx_eq_of(e: Engine) -> spec_fn(u64, u64) -> bool {
    |x: u64, y: u64| x % e.modulus == y % e.modulus
}

/// One element comparison: context-aware under `cmp` when `ctx` holds,
/// native equality otherwise.
pub open spec fn elem_eq(ctx: bool, cmp: spec_fn(u64, u64) -> bool, x: u64, y: u64) -> bool {
    if ctx {
        cmp(x, y)
    } else {
        x == y
    }
}

/// Elementwise comparison of two arrays, pairing truncated to the shorter.
pub open spec fn array_eq(
    ctx: bool,
    cmp: spec_fn(u64, u64) -> bool,
    xs: Seq<u64>,
    ys: Seq<u64>,
) -> bool {
    forall|k: int|
        0 <= k < xs.len() && k < ys.len() ==> elem_eq(ctx, cmp, #[trigger] xs[k], ys[k])
}

/// The value of one array-pass binding on record values `a` and `b`: the
/// elementwise comparison of the bound field, which is false when the field
/// is out of range or not an array on either side.
pub open spec fn binding_value(
    bd: ArrayBinding,
    cmp: spec_fn(u64, u64) -> bool,
    a: Seq<FieldValue>,
    b: Seq<FieldValue>,
) -> bool {
    &&& bd.field_idx < a.len() && bd.field_idx < b.len()
    &&& match (a[bd.field_idx as int], b[bd.field_idx as int]) {
        (FieldValue::Array(xs), FieldValue::Array(ys)) => array_eq(bd.ctx, cmp, xs@, ys@),
        _ => false,
    }
}

/// The value of one conjunction term: a scalar term compares the field
/// directly, a binding term takes the value of its array-pass binding; a term
/// out of range, or a scalar term over a non-scalar field, is false.
pub open spec fn term_value(
    t: Term,
    plan: GenPlan,
    cmp: spec_fn(u64, u64) -> bool,
    a: Seq<FieldValue>,
    b: Seq<FieldValue>,
) -> bool {
    match t {
        Term::Scalar { field_idx, ctx } => {
            &&& field_idx < a.len() && field_idx < b.len()
            &&& match (a[field_idx as int], b[field_idx as int]) {
                (FieldValue::Scalar(x), FieldValue::Scalar(y)) => elem_eq(ctx, cmp, x, y),
                _ => false,
            }
        },
        Term::Binding { binding_idx } => {
            &&& binding_idx < plan.bindings@.len()
            &&& binding_value(plan.bindings@[binding_idx as int], cmp, a, b)
        },
    }
}

/// What the generated procedure returns: the conjunction, over every term of
/// the plan, of that term's value.
pub open spec fn plan_value(
    plan: GenPlan,
    cmp: spec_fn(u64, u64) -> bool,
    a: Seq<FieldValue>,
    b: Seq<FieldValue>,
) -> bool {
    forall|i: int| 0 <= i < plan.terms@.len() ==> term_value(#[trigger] plan.terms@[i], plan, cmp, a, b)
}

/// Structural equality of one field, as the field's descriptor calls for it:
/// a scalar field compares its elements directly, a fixed-array field
/// compares elementwise, each context-aware exactly when the field is
/// context-dependent; a value of the wrong shape never compares equal.
pub open spec fn field_eq(
    fd: crate::descriptor::FieldDescriptor,
    cmp: spec_fn(u64, u64) -> bool,
    va: FieldValue,
    vb: FieldValue,
) -> bool {
    match fd.shape {
        crate::descriptor::Shape::Scalar { .. } => match (va, vb) {
            (FieldValue::Scalar(x), FieldValue::Scalar(y)) => elem_eq(
                crate::emitter::ctx_of(fd),
                cmp,
                x,
                y,
            ),
            _ => false,
        },
        crate::descriptor::Shape::FixedArray { .. } => match (va, vb) {
            (FieldValue::Array(xs), FieldValue::Array(ys)) => array_eq(
                crate::emitter::ctx_of(fd),
                cmp,
                xs@,
                ys@,
            ),
            _ => false,
        },
    }
}

/// Structural equality of two record values under a field list: every field,
/// in declaration order, compares equal.
pub open spec fn records_eq(
    fields: Seq<crate::descriptor::FieldDescriptor>,
    cmp: spec_fn(u64, u64) -> bool,
    a: Seq<FieldValue>,
    b: Seq<FieldValue>,
) -> bool {
    forall|i: int| 0 <= i < fields.len() ==> field_eq(#[trigger] fields[i], cmp, a[i], b[i])
}

/// Context-aware comparison of two elements under the engine: congruence
/// modulo the engine's modulus.
pub fn ctx_eq(e: &Engine, x: u64, y: u64) -> (r: bool)
    requires
        engine_wf(*e),
    ensures
        r == ctx_eq_of(*e)(x, y),
{
    x % e.modulus == y % e.modulus
}

/// One element comparison, context-aware under the engine iff `ctx`.
pub fn eval_elem(ctx: bool, e: &Engine, x: u64, y: u64) -> (r: bool)
    requires
        engine_wf(*e),
    ensures
        r == elem_eq(ctx, ctx_eq_of(*e), x, y),
{
    if ctx {
        ctx_eq(e, x, y)
    } else {
        x == y
    }
}

/// The value of one array-pass binding on two record values.
#[verifier::loop_isolation(false)]
pub fn eval_binding(bd: &ArrayBinding, e: &Engine, a: &Vec<FieldValue>, b: &Vec<FieldValue>) -> (r:
    bool)
    requires
        engine_wf(*e),
    ensures
        r == binding_value(*bd, ctx_eq_of(*e), a@, b@),
{
    if bd.field_idx >= a.len() || bd.field_idx >= b.len() {
        return false;
    }
    match (&a[bd.field_idx], &b[bd.field_idx]) {
        (FieldValue::Array(xs), FieldValue::Array(ys)) => {
            let n = if xs.len() <= ys.len() {
                xs.len()
            } else {
                ys.len()
            };
            let mut k: usize = 0;
            while k < n
                invariant
                    0 <= k <= n,
                    forall|j: int| 0 <= j < k as int ==> elem_eq(bd.ctx, ctx_eq_of(*e), #[trigger] xs@[j], ys@[j]),
                decreases n - k,
            {
                if !eval_elem(bd.ctx, e, xs[k], ys[k]) {
                    return false;
                }
                k = k + 1;
            }
            true
        },
        _ => false,
    }
}

/// The value of one conjunction term, given the already computed array pass.
pub fn eval_term(t: &Term, bindings: &Vec<bool>, plan: &GenPlan, e: &Engine, a: &Vec<FieldValue>, b: &Vec<FieldValue>) -> (r: bool)
    requires
        engine_wf(*e),
        bindings@.len() == plan.bindings@.len(),
        forall|j: int|
            0 <= j < plan.bindings@.len() ==> bindings@[j] == binding_value(
                #[trigger] plan.bindings@[j],
                ctx_eq_of(*e),
                a@,
                b@,
            ),
    ensures
        r == term_value(*t, *plan, ctx_eq_of(*e), a@, b@),
{
    match t {
        Term::Scalar { field_idx, ctx } => {
            if *field_idx >= a.len() || *field_idx >= b.len() {
                return false;
            }
            match (&a[*field_idx], &b[*field_idx]) {
                (FieldValue::Scalar(x), FieldValue::Scalar(y)) => eval_elem(*ctx, e, *x, *y),
                _ => false,
            }
        },
        Term::Binding { binding_idx } => {
            if *binding_idx >= bindings.len() {
                return false;
            }
            bindings[*binding_idx]
        },
    }
}

/// Evaluates an emitted plan on two record values, as the generated body
/// would: every array binding is computed first, unconditionally and in
/// declaration order; the conjunction is then evaluated in declaration order
/// and stops at the first false term.
#[verifier::loop_isolation(false)]
pub fn eval_plan(plan: &GenPlan, e: &Engine, a: &Vec<FieldValue>, b: &Vec<FieldValue>) -> (r: bool)
    requires
        engine_wf(*e),
    ensures
        r == plan_value(*plan, ctx_eq_of(*e), a@, b@),
{
    let mut bindings: Vec<bool> = Vec::new();
    let mut j: usize = 0;
    while j < plan.bindings.len()
        invariant
            0 <= j <= plan.bindings@.len(),
            bindings@.len() == j as int,
            forall|k: int|
                0 <= k < j as int ==> bindings@[k] == binding_value(
                    #[trigger] plan.bindings@[k],
                    ctx_eq_of(*e),
                    a@,
                    b@,
                ),
        decreases plan.bindings@.len() - j,
    {
        let v = eval_binding(&plan.bindings[j], e, a, b);
        bindings.push(v);
        j = j + 1;
    }
    let mut i: usize = 0;
    while i < plan.terms.len()
        invariant
            0 <= i <= plan.terms@.len(),
            bindings@.len() == plan.bindings@.len(),
            forall|k: int|
                0 <= k < plan.bindings@.len() ==> bindings@[k] == binding_value(
                    #[trigger] plan.bindings@[k],
                    ctx_eq_of(*e),
                    a@,
                    b@,
                ),
            forall|k: int|
                0 <= k < i as int ==> term_value(#[trigger] plan.terms@[k], *plan, ctx_eq_of(*e), a@, b@),
        decreases plan.terms@.len() - i,
    {
        if !eval_term(&plan.terms[i], &bindings, plan, e, a, b) {
            return false;
        }
        i = i + 1;
    }
    true
}

} // verus!
