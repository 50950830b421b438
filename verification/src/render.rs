//! Code emitter, textual half: the source text of the generated comparison
//! procedure, assembled from the normalized generic parameters and the
//! classified field list in declaration order.

use vstd::prelude::*;
use vstd::string::StringExecFns;

use crate::descriptor::{FieldDescriptor, GenericParam, Shape};
use crate::emitter::ctx_of;
use crate::normalizer::exactly_one_engine;

verus! {

/// The text of one generic parameter in the implementation header, with its
/// trailing separator: the engine bound is spelled out on the parameter that
/// carries it.
pub open spec fn param_text(p: GenericParam) -> Seq<char> {
    if p.engine_bound {
        p.name@ + ": Engine, "@
    } else {
        p.name@ + ", "@
    }
}

/// The text of the first `n` header parameters.
pub open spec fn params_text(ps: Seq<GenericParam>, n: int) -> Seq<char>
    decreases n,
{
    if n <= 0 {
        Seq::empty()
    } else {
        params_text(ps, n - 1) + param_text(ps[n - 1])
    }
}

/// The text of the first `n` subject-type arguments, names with trailing
/// separators.
pub open spec fn args_text(ps: Seq<GenericParam>, n: int) -> Seq<char>
    decreases n,
{
    if n <= 0 {
        Seq::empty()
    } else {
        args_text(ps, n - 1) + ps[n - 1].name@ + ", "@
    }
}

/// The elementwise comparison inside an array binding: context-aware under
/// the engine parameter `en` iff `ctx`, native equality otherwise.
pub open spec fn elem_cmp_text(en: Seq<char>, ctx: bool) -> Seq<char> {
    if ctx {
        "CircuitEq::<"@ + en + ">::eq(t, &o)"@
    } else {
        "t.eq(&o)"@
    }
}

/// The array-pass line binding field `name`: the conjunction over the zipped
/// elements of `self`'s and `other`'s field.
pub open spec fn binding_line_text(name: Seq<char>, en: Seq<char>, ctx: bool) -> Seq<char> {
    "        let "@ + name + " = self."@ + name + ".iter().zip(other."@ + name
        + ").map(|(t, o)| "@ + elem_cmp_text(en, ctx) + ").all(|r| r);\n"@
}

/// The array-pass lines of the first `n` fields, one line per fixed-array
/// field, in declaration order.
pub open spec fn bindings_text(fields: Seq<FieldDescriptor>, en: Seq<char>, n: int) -> Seq<char>
    decreases n,
{
    if n <= 0 {
        Seq::empty()
    } else {
        bindings_text(fields, en, n - 1) + if fields[n - 1].shape is FixedArray {
            binding_line_text(fields[n - 1].name@, en, ctx_of(fields[n - 1]))
        } else {
            Seq::empty()
        }
    }
}

/// One conjunction term: the direct comparison of a scalar field, or the name
/// of an array field's local binding.
pub open spec fn term_text(fd: FieldDescriptor, en: Seq<char>) -> Seq<char> {
    match fd.shape {
        Shape::Scalar { .. } => if ctx_of(fd) {
            "CircuitEq::<"@ + en + ">::eq(&self."@ + fd.name@ + ", &other."@ + fd.name@ + ")"@
        } else {
            "self."@ + fd.name@ + ".eq(&other."@ + fd.name@ + ")"@
        },
        Shape::FixedArray { .. } => fd.name@,
    }
}

/// The conjunction over the first `n` fields, one term per field in
/// declaration order, joined left-to-right by the short-circuiting AND.
pub open spec fn terms_text(fields: Seq<FieldDescriptor>, en: Seq<char>, n: int) -> Seq<char>
    decreases n,
{
    if n <= 0 {
        Seq::empty()
    } else if n == 1 {
        term_text(fields[0], en)
    } else {
        terms_text(fields, en, n - 1) + " && "@ + term_text(fields[n - 1], en)
    }
}

/// The index of the engine-bound parameter of a header that has exactly one.
pub open spec fn engine_index(ps: Seq<GenericParam>) -> int {
    choose|i: int| 0 <= i < ps.len() && ps[i].engine_bound
}

/// The name of the engine-bound parameter of such a header.
pub open spec fn engine_name_of(ps: Seq<GenericParam>) -> Seq<char> {
    ps[engine_index(ps)].name@
}

/// The complete text of the generated implementation: the header over the
/// normalized parameters, the subject type re-instantiated with its own
/// arguments, then the procedure body — the array pass first, the conjunction
/// last.
pub open spec fn impl_text(
    name: Seq<char>,
    header: Seq<GenericParam>,
    subject: Seq<GenericParam>,
    fields: Seq<FieldDescriptor>,
) -> Seq<char> {
    let en = engine_name_of(header);
    "impl<"@ + params_text(header, header.len() as int) + "> CircuitEq<"@ + en + "> for "@ + name
        + "<"@ + args_text(subject, subject.len() as int)
        + "> {\n    fn eq(&self, other: &Self) -> bool {\n"@ + bindings_text(
        fields,
        en,
        fields.len() as int,
    ) + "        "@ + terms_text(fields, en, fields.len() as int) + "\n    }\n}\n"@
}

/// Returns the engine-bound parameter's name out of a header that holds
/// exactly one.
#[verifier::loop_isolation(false)]
pub fn engine_name(header: &Vec<GenericParam>) -> (r: &String)
    requires
        exactly_one_engine(header@),
    ensures
        r@ == engine_name_of(header@),
{
    let mut i: usize = 0;
    while i < header.len()
        invariant
            0 <= i <= header@.len(),
            forall|j: int| 0 <= j < i as int ==> !header@[j].engine_bound,
        decreases header@.len() - i,
    {
        if header[i].engine_bound {
            proof {
                assert(engine_index(header@) == i as int);
            }
            return &header[i].name;
        }
        i = i + 1;
    }
    vstd::pervasive::unreached()
}

/// Appends the header parameter list.
#[verifier::loop_isolation(false)]
fn push_params(out: &mut String, ps: &Vec<GenericParam>)
    ensures
        final(out)@ == old(out)@ + params_text(ps@, ps@.len() as int),
{
    let mut i: usize = 0;
    while i < ps.len()
        invariant
            0 <= i <= ps@.len(),
            out@ == old(out)@ + params_text(ps@, i as int),
        decreases ps@.len() - i,
    {
        out.append(ps[i].name.as_str());
        if ps[i].engine_bound {
            out.append(": Engine, ");
        } else {
            out.append(", ");
        }
        proof {
            assert(out@ =~= old(out)@ + params_text(ps@, i as int + 1));
        }
        i = i + 1;
    }
}

/// Appends the subject-type argument list.
#[verifier::loop_isolation(false)]
fn push_args(out: &mut String, ps: &Vec<GenericParam>)
    ensures
        final(out)@ == old(out)@ + args_text(ps@, ps@.len() as int),
{
    let mut i: usize = 0;
    while i < ps.len()
        invariant
            0 <= i <= ps@.len(),
            out@ == old(out)@ + args_text(ps@, i as int),
        decreases ps@.len() - i,
    {
        out.append(ps[i].name.as_str());
        out.append(", ");
        proof {
            assert(out@ =~= old(out)@ + args_text(ps@, i as int + 1));
        }
        i = i + 1;
    }
}

/// Appends the elementwise comparison of an array binding.
fn push_elem_cmp(out: &mut String, en: &String, ctx: bool)
    ensures
        final(out)@ == old(out)@ + elem_cmp_text(en@, ctx),
{
    if ctx {
        out.append("CircuitEq::<");
        out.append(en.as_str());
        out.append(">::eq(t, &o)");
        proof {
            assert(out@ =~= old(out)@ + elem_cmp_text(en@, ctx));
        }
    } else {
        out.append("t.eq(&o)");
    }
}

/// Appends one array-pass binding line.
fn push_binding_line(out: &mut String, name: &String, en: &String, ctx: bool)
    ensures
        final(out)@ == old(out)@ + binding_line_text(name@, en@, ctx),
{
    out.append("        let ");
    out.append(name.as_str());
    out.append(" = self.");
    out.append(name.as_str());
    out.append(".iter().zip(other.");
    out.append(name.as_str());
    out.append(").map(|(t, o)| ");
    push_elem_cmp(out, en, ctx);
    out.append(").all(|r| r);\n");
    proof {
        assert(out@ =~= old(out)@ + binding_line_text(name@, en@, ctx));
    }
}

/// Appends one conjunction term.
fn push_term(out: &mut String, fd: &FieldDescriptor, en: &String)
    ensures
        final(out)@ == old(out)@ + term_text(*fd, en@),
{
    let ctx = match fd.kind {
        crate::descriptor::SemanticKind::ContextDependent => true,
        crate::descriptor::SemanticKind::Plain => false,
    };
    match fd.shape {
        Shape::Scalar { .. } => {
            if ctx {
                out.append("CircuitEq::<");
                out.append(en.as_str());
                out.append(">::eq(&self.");
                out.append(fd.name.as_str());
                out.append(", &other.");
                out.append(fd.name.as_str());
                out.append(")");
            } else {
                out.append("self.");
                out.append(fd.name.as_str());
                out.append(".eq(&other.");
                out.append(fd.name.as_str());
                out.append(")");
            }
        },
        Shape::FixedArray { .. } => {
            out.append(fd.name.as_str());
        },
    }
    proof {
        assert(out@ =~= old(out)@ + term_text(*fd, en@));
    }
}

/// Appends the array pass: one binding line per fixed-array field, in
/// declaration order, computed unconditionally ahead of the conjunction.
#[verifier::loop_isolation(false)]
fn push_bindings(out: &mut String, fields: &Vec<FieldDescriptor>, en: &String)
    ensures
        final(out)@ == old(out)@ + bindings_text(fields@, en@, fields@.len() as int),
{
    let mut i: usize = 0;
    while i < fields.len()
        invariant
            0 <= i <= fields@.len(),
            out@ == old(out)@ + bindings_text(fields@, en@, i as int),
        decreases fields@.len() - i,
    {
        let fd = &fields[i];
        match fd.shape {
            Shape::FixedArray { .. } => {
                let ctx = match fd.kind {
                    crate::descriptor::SemanticKind::ContextDependent => true,
                    crate::descriptor::SemanticKind::Plain => false,
                };
                push_binding_line(out, &fd.name, en, ctx);
            },
            Shape::Scalar { .. } => {},
        }
        proof {
            assert(out@ =~= old(out)@ + bindings_text(fields@, en@, i as int + 1));
        }
        i = i + 1;
    }
}

/// Appends the conjunction pass: one term per field in declaration order,
/// joined by the short-circuiting AND.
#[verifier::loop_isolation(false)]
fn push_terms(out: &mut String, fields: &Vec<FieldDescriptor>, en: &String)
    ensures
        final(out)@ == old(out)@ + terms_text(fields@, en@, fields@.len() as int),
{
    let mut i: usize = 0;
    while i < fields.len()
        invariant
            0 <= i <= fields@.len(),
            out@ == old(out)@ + terms_text(fields@, en@, i as int),
        decreases fields@.len() - i,
    {
        if i > 0 {
            out.append(" && ");
        }
        push_term(out, &fields[i], en);
        proof {
            assert(out@ =~= old(out)@ + terms_text(fields@, en@, i as int + 1));
        }
        i = i + 1;
    }
}

/// Renders the complete generated implementation text.
pub fn render_impl(
    name: &String,
    header: &Vec<GenericParam>,
    subject: &Vec<GenericParam>,
    fields: &Vec<FieldDescriptor>,
) -> (r: String)
    requires
        exactly_one_engine(header@),
    ensures
        r@ == impl_text(name@, header@, subject@, fields@),
{
    let en: String = engine_name(header).clone();
    let mut out = String::new();
    out.append("impl<");
    push_params(&mut out, header);
    out.append("> CircuitEq<");
    out.append(en.as_str());
    out.append("> for ");
    out.append(name.as_str());
    out.append("<");
    push_args(&mut out, subject);
    out.append("> {\n    fn eq(&self, other: &Self) -> bool {\n");
    push_bindings(&mut out, fields, &en);
    out.append("        ");
    push_terms(&mut out, fields, &en);
    out.append("\n    }\n}\n");
    proof {
        assert(out@ =~= impl_text(name@, header@, subject@, fields@));
    }
    out
}

} // verus!
