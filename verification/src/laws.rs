//! Properties of the library as a whole: facts that relate several of its
//! operations, proved over the models that their contracts speak of.
use crate::arith::{floor_div, floor_mod, lemma_floor_from_trunc, lemma_trunc_rem_bounds};
use crate::integer::{trunc_div, trunc_rem};
use crate::model::{Ty, SirM};
use crate::module::empty_anns;
use crate::name_map::assoc_last;
use crate::registry::{FnM, full_name, resolved_call};
use vstd::prelude::*;

verus! {

broadcast use crate::model::group_model_seqs;

/// `divideInteger` and `modInteger` split a dividend as Haskell's `div` and
/// `mod` do: `(a div b) * b + (a mod b) == a`, and the remainder has the sign
/// of the divisor and is smaller than it in size.
pub proof fn law_divide_mod(a: int, b: int)
    requires
        b != 0,
    ensures
        floor_div(a, b) * b + floor_mod(a, b) == a,
        b > 0 ==> 0 <= floor_mod(a, b) < b,
        b < 0 ==> b < floor_mod(a, b) <= 0,
{
    lemma_floor_from_trunc(a, b);
    assert(floor_div(a, b) * b == b * floor_div(a, b)) by (nonlinear_arith);
}

/// `quotientInteger` and `remainderInteger` split a dividend as Haskell's
/// `quot` and `rem` do: `(a quot b) * b + (a rem b) == a`, and the remainder
/// has the sign of the dividend and is smaller than the divisor in size.
pub proof fn law_quotient_remainder(a: int, b: int)
    requires
        b != 0,
    ensures
        trunc_div(a, b) * b + trunc_rem(a, b) == a,
        b > 0 ==> -b < trunc_rem(a, b) < b,
        b < 0 ==> b < trunc_rem(a, b) < -b,
        a >= 0 ==> trunc_rem(a, b) >= 0,
        a <= 0 ==> trunc_rem(a, b) <= 0,
{
    lemma_trunc_rem_bounds(a, b);
    assert(trunc_div(a, b) * b == b * trunc_div(a, b)) by (nonlinear_arith);
}

/// On a nonnegative dividend and a positive divisor the two divisions agree:
/// `divideInteger` is `quotientInteger` and `modInteger` is
/// `remainderInteger`.
pub proof fn law_divisions_agree_on_nonnegatives(a: int, b: int)
    requires
        a >= 0,
        b > 0,
    ensures
        floor_div(a, b) == trunc_div(a, b),
        floor_mod(a, b) == trunc_rem(a, b),
{
    lemma_floor_from_trunc(a, b);
    lemma_trunc_rem_bounds(a, b);
}

/// A call by a name under which a function was last registered resolves to
/// that function: an external variable named `module.name` (or `name`
/// without a module), of the registered type.
pub proof fn law_registered_call_resolves(fns: Seq<(Seq<char>, FnM)>, path: Seq<char>, f: FnM, fallback: Ty)
    requires
        assoc_last(fns, path) == Some(f),
    ensures
        resolved_call(|k: Seq<char>| assoc_last(fns, k), path, fallback) == SirM::ExternalVar(
            f.module_name,
            full_name(f),
            f.tp,
            empty_anns(),
        ),
{
}

/// A call by a path under which nothing was registered, neither whole nor
/// by its last `::` segment, stays a variable of the fallback type.
pub proof fn law_unregistered_call_is_var(fns: Seq<(Seq<char>, FnM)>, path: Seq<char>, fallback: Ty)
    requires
        assoc_last(fns, path) is None,
        assoc_last(fns, crate::text::after_last(path, "::"@)) is None,
    ensures
        resolved_call(|k: Seq<char>| assoc_last(fns, k), path, fallback) == SirM::Var(path, fallback, empty_anns()),
{
}

} // verus!
