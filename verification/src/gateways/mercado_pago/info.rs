use vstd::prelude::*;

use crate::domain::gateway::gateway::GatewayName;
use crate::domain::gateway::gateway_capabilities::GatewayCapabilities;
use crate::domain::gateway::gateway_info::GatewayInfo;

verus! {

/// The static facts about the Mercado Pago integration: no payment method is
/// enabled yet, and the API lives at `https://api.mercadopago.com`, version `v1`.
pub open spec fn is_mercado_pago_info(info: GatewayInfo) -> bool {
    &&& info.name == GatewayName::MercadoPago
    &&& info.capabilities == GatewayCapabilities { pix: false, card: false, boleto: false }
    &&& info.base_url@ == "https://api.mercadopago.com"@
    &&& info.api_version@ == "v1"@
}

/// The static facts about the Mercado Pago integration.
pub fn info_mercado_pago() -> (r: GatewayInfo)
    ensures
        is_mercado_pago_info(r),
{
    GatewayInfo {
        name: GatewayName::MercadoPago,
        capabilities: GatewayCapabilities { pix: false, card: false, boleto: false },
        base_url: "https://api.mercadopago.com",
        api_version: "v1",
    }
}

} // verus!
