use vstd::prelude::*;

verus! {

/// What a boleto payment asks for.
#[derive(Debug)]
pub struct BoletoData {
    pub expires_in_dasy: u32,
}

} // verus!
