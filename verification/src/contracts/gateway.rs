use vstd::prelude::*;

use crate::domain::gateway::gateway_info::GatewayInfo;

verus! {

/// What every gateway integration offers.
pub trait Gateway {
    /// The static facts about the integration.
    fn info(&self) -> GatewayInfo;
}

} // verus!
