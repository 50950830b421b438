//! Generic parameter normalizer: ensures the generated implementation header
//! carries exactly one engine-bound context parameter, and computes the
//! parameter list that re-instantiates the subject type.

use vstd::prelude::*;

use crate::descriptor::GenericParam;
use crate::reader::clone_params;

verus! {

/// Whether some parameter of `s` carries the engine bound.
pub open spec fn has_engine(s: Seq<GenericParam>) -> bool {
    exists|i: int| 0 <= i < s.len() && s[i].engine_bound
}

/// Whether at most one parameter of `s` carries the engine bound.
pub open spec fn at_most_one_engine(s: Seq<GenericParam>) -> bool {
    forall|i: int, j: int|
        0 <= i < s.len() && 0 <= j < s.len() && s[i].engine_bound && s[j].engine_bound ==> i == j
}

/// Whether exactly one parameter of `s` carries the engine bound.
pub open spec fn exactly_one_engine(s: Seq<GenericParam>) -> bool {
    has_engine(s) && at_most_one_engine(s)
}

/// The name given to a synthesized engine parameter.
pub open spec fn synthesized_engine_name() -> Seq<char> {
    "E"@
}

/// The normalized generic parameters of a generated implementation: the
/// header parameter list, the list re-instantiating the subject type, and
/// whether an engine parameter was newly synthesized.
pub struct NormalizedGenerics {
    pub header: Vec<GenericParam>,
    pub subject: Vec<GenericParam>,
    pub inserted: bool,
}

/// Normalizes a declared generic parameter list. When the list already holds
/// an engine-bound parameter it is left unmodified; otherwise an engine-bound
/// parameter named `E` is synthesized and prepended. The subject type is
/// re-instantiated with exactly the originally declared parameters, so the
/// synthesized parameter is excluded from it, while an engine parameter that
/// was already declared stays in it. The header always holds exactly one
/// engine-bound parameter, and no duplicate is ever introduced.
#[verifier::loop_isolation(false)]
pub fn normalize_generics(params: &Vec<GenericParam>) -> (r: NormalizedGenerics)
    requires
        at_most_one_engine(params@),
    ensures
        r.inserted == !has_engine(params@),
        r.subject@ == params@,
        !r.inserted ==> r.header@ == params@,
        r.inserted ==> r.header@.len() == params@.len() + 1,
        r.inserted ==> r.header@[0].name@ == synthesized_engine_name()
            && r.header@[0].engine_bound,
        r.inserted ==> r.header@.skip(1) == params@,
        exactly_one_engine(r.header@),
{
    let mut found: bool = false;
    let mut i: usize = 0;
    while i < params.len()
        invariant
            0 <= i <= params@.len(),
            found == exists|j: int| 0 <= j < i as int && params@[j].engine_bound,
        decreases params@.len() - i,
    {
        if params[i].engine_bound {
            found = true;
        }
        i = i + 1;
    }
    let mut header = clone_params(params);
    if !found {
        header.insert(0, GenericParam { name: String::from_str("E"), engine_bound: true });
        proof {
            assert(header@.skip(1) =~= params@);
            assert(header@[0].name@ == synthesized_engine_name());
        }
    }
    NormalizedGenerics { header, subject: clone_params(params), inserted: !found }
}

} // verus!
