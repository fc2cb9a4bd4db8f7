//! The on-chain builtin pair.
use vstd::prelude::*;

verus! {

/// A pair of values.
#[derive(Debug, PartialEq)]
pub struct Pair<A, B> {
    pub fst: A,
    pub snd: B,
}

impl<A, B> Pair<A, B> {
    /// The pair of `fst` and `snd`.
    pub fn new(fst: A, snd: B) -> (r: Pair<A, B>)
        ensures
            r.fst == fst,
            r.snd == snd,
    {
        Pair { fst, snd }
    }
}

impl<A, B> From<(A, B)> for Pair<A, B> {
    fn from(p: (A, B)) -> (r: Pair<A, B>) {
        Pair { fst: p.0, snd: p.1 }
    }
}

impl<A, B> vstd::std_specs::convert::FromSpecImpl<(A, B)> for Pair<A, B> {
    open spec fn obeys_from_spec() -> bool {
        true
    }

    open spec fn from_spec(p: (A, B)) -> Pair<A, B> {
        Pair { fst: p.0, snd: p.1 }
    }
}

} // verus!
