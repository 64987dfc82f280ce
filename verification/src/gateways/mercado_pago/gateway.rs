use vstd::prelude::*;

use crate::contracts::gateway::Gateway;
use crate::domain::gateway::gateway_info::GatewayInfo;
use crate::gateways::mercado_pago::client::MercadoPagoClient;
use crate::gateways::mercado_pago::info::{info_mercado_pago, is_mercado_pago_info};

verus! {

/// The Mercado Pago gateway.
pub struct MercadoPago {
    client: MercadoPagoClient,
}

impl MercadoPago {
    /// The gateway that talks to Mercado Pago through `client`.
    pub fn new(client: MercadoPagoClient) -> (r: Self)
        ensures
            r.client() == client,
    {
        MercadoPago { client }
    }

    /// The HTTP client of the gateway.
    pub closed spec fn client(self) -> MercadoPagoClient {
        self.client
    }
}

impl Gateway for MercadoPago {
    fn info(&self) -> (r: GatewayInfo)
        ensures
            is_mercado_pago_info(r),
    {
        info_mercado_pago()
    }
}

} // verus!
