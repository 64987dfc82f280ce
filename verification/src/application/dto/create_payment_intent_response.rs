use vstd::prelude::*;

use crate::domain::value_objects::amount::Amount;
use crate::domain::value_objects::payment_method_response::payment_method_response::PaymentMethodResponse;
use crate::domain::value_objects::payment_status::PaymentStatus;

verus! {

/// The outcome of charging a customer.
pub struct PaymentIntentOutput {
    pub id: String,
    pub status: PaymentStatus,
    pub amount: Amount,
    pub payment_response: PaymentMethodResponse,
}

} // verus!
