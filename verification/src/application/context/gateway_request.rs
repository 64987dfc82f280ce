use vstd::prelude::*;

use crate::application::dto::create_payment_intent::PaymentIntentInput;
use crate::domain::value_objects::gateway_attempt_id::GatewayAttemptId;

verus! {

/// A payment intent together with the identifier of the attempt that sends
/// it to a gateway.
pub struct GatewayRequestContext<'a> {
    pub payment_intent: &'a PaymentIntentInput,
    pub gateway_attempt_id: GatewayAttemptId,
}

} // verus!
