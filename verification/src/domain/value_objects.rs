pub mod amount;
pub mod customer;
pub mod gateway_attempt_id;
pub mod payment_method;
pub mod payment_method_response;
pub mod payment_status;
