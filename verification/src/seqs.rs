//! Small conversions between machine and mathematical integers, for the
//! modules that compare keys (where a cast may not stand).
use vstd::prelude::*;

verus! {

/// A machine index as a mathematical integer.
pub open spec fn idx(n: usize) -> int {
    n as int
}

/// A length as a mathematical integer.
pub open spec fn len_int(n: nat) -> int {
    n as int
}

} // verus!
