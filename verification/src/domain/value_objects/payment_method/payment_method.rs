use vstd::prelude::*;

use crate::domain::value_objects::payment_method::boleto::BoletoData;
use crate::domain::value_objects::payment_method::card::CardData;
use crate::domain::value_objects::payment_method::pix::PixData;

verus! {

/// The payment method a customer chose, with its parameters.
#[derive(Debug)]
pub enum PaymentMethod {
    Pix(PixData),
    Card(CardData),
    Boleto(BoletoData),
}

} // verus!
