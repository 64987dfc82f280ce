use vstd::prelude::*;

verus! {

/// What a PIX payment asks for.
#[derive(Debug)]
pub struct PixData {
    pub expires_in_seconds: u64,
}

} // verus!
