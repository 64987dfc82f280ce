use vstd::prelude::*;

verus! {

/// The outcome of a card charge; no field is carried yet.
#[derive(Debug)]
pub struct CardData {}

} // verus!
