use vstd::prelude::*;

use crate::domain::value_objects::payment_method_response::boleto::BoletoData;
use crate::domain::value_objects::payment_method_response::card::CardData;
use crate::domain::value_objects::payment_method_response::pix::PixData;

verus! {

/// What a gateway answered for each payment method.
#[derive(Debug)]
pub enum PaymentMethodResponse {
    Pix(PixData),
    Card(CardData),
    Boleto(BoletoData),
}

} // verus!
