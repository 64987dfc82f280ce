use vstd::prelude::*;

use crate::domain::gateway::gateway::GatewayName;
use crate::domain::gateway::gateway_capabilities::GatewayCapabilities;

verus! {

/// Static facts about a gateway integration.
#[derive(Debug, Clone, Copy)]
pub struct GatewayInfo {
    pub name: GatewayName,
    pub capabilities: GatewayCapabilities,
    pub base_url: &'static str,
    pub api_version: &'static str,
}

} // verus!
