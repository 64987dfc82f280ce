use vstd::prelude::*;

verus! {

/// What a card payment asks for.
#[derive(Debug)]
pub struct CardData {
    pub number: String,
}

} // verus!
