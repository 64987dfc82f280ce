use vstd::prelude::*;

verus! {

/// The payment providers CorvoPay integrates with.
#[derive(Debug, Clone, Copy, PartialEq, Eq, Structural)]
pub enum GatewayName {
    MercadoPago,
    Pagarme,
    Stripe,
}

} // verus!
