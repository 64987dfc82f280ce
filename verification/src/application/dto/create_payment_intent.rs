use vstd::prelude::*;

use crate::domain::value_objects::amount::Amount;
use crate::domain::value_objects::customer::payer::Payer;
use crate::domain::value_objects::payment_method::payment_method::PaymentMethod;

verus! {

/// A request to charge a customer.
pub struct PaymentIntentInput {
    pub amount: Amount,
    pub payer: Payer,
    pub payment_method: PaymentMethod,
}

} // verus!
