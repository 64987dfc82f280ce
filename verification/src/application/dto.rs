pub mod create_payment_intent;
pub mod create_payment_intent_response;
