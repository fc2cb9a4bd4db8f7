//! The UPLC builtin functions that compiled code refers to.
use vstd::prelude::*;

verus! {

/// A UPLC builtin function.
#[derive(Debug, Clone, Copy, PartialEq, Eq, Structural)]
pub enum DefaultFun {
    AddInteger,
    SubtractInteger,
    MultiplyInteger,
    EqualsInteger,
    LessThanInteger,
    LessThanEqualsInteger,
    IfThenElse,
    EqualsData,
    EqualsByteString,
    EqualsString,
    ConstrData,
    UnConstrData,
    HeadList,
    TailList,
    NullList,
    MkCons,
    MkNilData,
    Trace,
    LessThanByteString,
    SerialiseData,
}

/// What an integer builtin of two arguments computes on chain, where it
/// gives an integer.
pub open spec fn int_arith_meaning(f: DefaultFun, x: int, y: int) -> Option<int> {
    match f {
        DefaultFun::AddInteger => Some(x + y),
        DefaultFun::SubtractInteger => Some(x - y),
        DefaultFun::MultiplyInteger => Some(x * y),
        _ => None,
    }
}

/// What an integer builtin of two arguments answers on chain, where it is a
/// test.
pub open spec fn int_test_meaning(f: DefaultFun, x: int, y: int) -> Option<bool> {
    match f {
        DefaultFun::EqualsInteger => Some(x == y),
        DefaultFun::LessThanInteger => Some(x < y),
        DefaultFun::LessThanEqualsInteger => Some(x <= y),
        _ => None,
    }
}

/// What a byte-string builtin of two arguments answers on chain, where it is
/// a test: equality, or the lexicographic order.
pub open spec fn bytes_test_meaning(f: DefaultFun, x: Seq<u8>, y: Seq<u8>) -> Option<bool> {
    match f {
        DefaultFun::EqualsByteString => Some(x == y),
        DefaultFun::LessThanByteString => Some(crate::builtins::bytes_lt(x, y)),
        _ => None,
    }
}

} // verus!

verus! {

/// The name of a builtin, as it is written in the enum.
pub open spec fn fun_name(f: DefaultFun) -> Seq<char> {
    match f {
        DefaultFun::AddInteger => "AddInteger"@,
        DefaultFun::SubtractInteger => "SubtractInteger"@,
        DefaultFun::MultiplyInteger => "MultiplyInteger"@,
        DefaultFun::EqualsInteger => "EqualsInteger"@,
        DefaultFun::LessThanInteger => "LessThanInteger"@,
        DefaultFun::LessThanEqualsInteger => "LessThanEqualsInteger"@,
        DefaultFun::IfThenElse => "IfThenElse"@,
        DefaultFun::EqualsData => "EqualsData"@,
        DefaultFun::EqualsByteString => "EqualsByteString"@,
        DefaultFun::EqualsString => "EqualsString"@,
        DefaultFun::ConstrData => "ConstrData"@,
        DefaultFun::UnConstrData => "UnConstrData"@,
        DefaultFun::HeadList => "HeadList"@,
        DefaultFun::TailList => "TailList"@,
        DefaultFun::NullList => "NullList"@,
        DefaultFun::MkCons => "MkCons"@,
        DefaultFun::MkNilData => "MkNilData"@,
        DefaultFun::Trace => "Trace"@,
        DefaultFun::LessThanByteString => "LessThanByteString"@,
        DefaultFun::SerialiseData => "SerialiseData"@,
    }
}

impl DefaultFun {
    /// The name of the builtin, as it is written in the enum.
    pub fn name(&self) -> (r: String)
        ensures
            r@ == fun_name(*self),
    {
        let s: &str = match self {
            DefaultFun::AddInteger => "AddInteger",
            DefaultFun::SubtractInteger => "SubtractInteger",
            DefaultFun::MultiplyInteger => "MultiplyInteger",
            DefaultFun::EqualsInteger => "EqualsInteger",
            DefaultFun::LessThanInteger => "LessThanInteger",
            DefaultFun::LessThanEqualsInteger => "LessThanEqualsInteger",
            DefaultFun::IfThenElse => "IfThenElse",
            DefaultFun::EqualsData => "EqualsData",
            DefaultFun::EqualsByteString => "EqualsByteString",
            DefaultFun::EqualsString => "EqualsString",
            DefaultFun::ConstrData => "ConstrData",
            DefaultFun::UnConstrData => "UnConstrData",
            DefaultFun::HeadList => "HeadList",
            DefaultFun::TailList => "TailList",
            DefaultFun::NullList => "NullList",
            DefaultFun::MkCons => "MkCons",
            DefaultFun::MkNilData => "MkNilData",
            DefaultFun::Trace => "Trace",
            DefaultFun::LessThanByteString => "LessThanByteString",
            DefaultFun::SerialiseData => "SerialiseData",
        };
        crate::text::owned(s)
    }
}

} // verus!
