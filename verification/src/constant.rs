//! UPLC constants.
use crate::integer::Integer;
use vstd::prelude::*;

verus! {

/// A literal constant of UPLC.
#[allow(inconsistent_fields)]
#[derive(Debug, PartialEq)]
pub enum UplcConstant {
    Integer { value: Integer },
    ByteString { value: Vec<u8> },
    String { value: String },
    Bool { value: bool },
    Unit,
}

} // verus!
