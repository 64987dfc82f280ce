use corvopay::domain::gateway::gateway::GatewayName;
use corvopay::domain::value_objects::payment_status::PaymentStatus;

#[test]
fn should_return_paid_when_mercado_pago_status_is_approved() {
    let result = PaymentStatus::from_gateway(GatewayName::MercadoPago, "approved");
    assert_eq!(result, PaymentStatus::Paid);
}

#[test]
fn should_return_pending_when_mercado_pago_status_is_action_required() {
    let result = PaymentStatus::from_gateway(GatewayName::MercadoPago, "action_required");
    assert_eq!(result, PaymentStatus::Pending);
}

#[test]
fn should_return_pending_when_mercado_pago_status_is_pending() {
    let result = PaymentStatus::from_gateway(GatewayName::MercadoPago, "pending");
    assert_eq!(result, PaymentStatus::Pending);
}

#[test]
fn should_return_pending_when_mercado_pago_status_is_in_process() {
    let result = PaymentStatus::from_gateway(GatewayName::MercadoPago, "in_process");
    assert_eq!(result, PaymentStatus::Pending);
}

#[test]
fn should_return_failed_when_mercado_pago_status_is_rejected() {
    let result = PaymentStatus::from_gateway(GatewayName::MercadoPago, "rejected");
    assert_eq!(result, PaymentStatus::Failed);
}

#[test]
fn should_return_failed_when_mercado_pago_status_is_cancelled() {
    let result = PaymentStatus::from_gateway(GatewayName::MercadoPago, "cancelled");
    assert_eq!(result, PaymentStatus::Failed);
}

#[test]
fn should_return_failed_when_mercado_pago_status_is_charged_back() {
    let result = PaymentStatus::from_gateway(GatewayName::MercadoPago, "charged_back");
    assert_eq!(result, PaymentStatus::Failed);
}

#[test]
fn should_return_refunded_when_mercado_pago_status_is_refunded() {
    let result = PaymentStatus::from_gateway(GatewayName::MercadoPago, "refunded");
    assert_eq!(result, PaymentStatus::Refunded);
}

#[test]
fn should_return_expired_when_mercado_pago_status_is_expired() {
    let result = PaymentStatus::from_gateway(GatewayName::MercadoPago, "expired");
    assert_eq!(result, PaymentStatus::Expired);
}

#[test]
fn should_return_invalid_response_when_mercado_pago_status_is_unknown() {
    let result = PaymentStatus::from_gateway(GatewayName::MercadoPago, "unknown_status");
    assert_eq!(result, PaymentStatus::InvalidResponse);
}

#[test]
fn should_return_invalid_response_when_mercado_pago_status_is_empty_string() {
    let result = PaymentStatus::from_gateway(GatewayName::MercadoPago, "");
    assert_eq!(result, PaymentStatus::InvalidResponse);
}

#[test]
fn should_return_invalid_response_when_status_is_uppercase_approved() {
    // from_mercado_pago faz match exato — case sensitive
    let result = PaymentStatus::from_gateway(GatewayName::MercadoPago, "APPROVED");
    assert_eq!(result, PaymentStatus::InvalidResponse);
}

#[test]
fn should_return_invalid_response_when_status_has_leading_whitespace() {
    let result = PaymentStatus::from_gateway(GatewayName::MercadoPago, " approved");
    assert_eq!(result, PaymentStatus::InvalidResponse);
}

#[test]
fn should_return_invalid_response_when_status_has_trailing_whitespace() {
    let result = PaymentStatus::from_gateway(GatewayName::MercadoPago, "approved ");
    assert_eq!(result, PaymentStatus::InvalidResponse);
}

#[test]
fn should_return_invalid_response_for_pagarme_only_status_pending_refund() {
    // pending_refund não existe no mapeamento do MercadoPago
    let result = PaymentStatus::from_gateway(GatewayName::MercadoPago, "pending_refund");
    assert_eq!(result, PaymentStatus::InvalidResponse);
}
