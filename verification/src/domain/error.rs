use vstd::prelude::*;

verus! {

/// Why a domain value object refused its input.
#[derive(Debug, Clone, Copy, PartialEq, Eq, Structural)]
pub enum ValidationError {
    InvalidAmount,
    InvalidEmail,
    InvalidName,
    InvalidDocument,
}

} // verus!
