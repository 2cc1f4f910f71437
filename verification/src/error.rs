use vstd::prelude::*;

verus! {

/// Failure to decode an instruction field.
#[derive(Debug, PartialEq, Eq)]
pub enum DecodeError {
    /// A condition field holding a value that names no condition (15 or more).
    InvalidCondition(u8),
}

} // verus!
