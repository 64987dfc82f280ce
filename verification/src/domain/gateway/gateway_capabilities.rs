use vstd::prelude::*;

verus! {

/// Which payment methods a gateway integration handles.
#[derive(Debug, Clone, Copy, PartialEq, Eq, Structural)]
pub struct GatewayCapabilities {
    pub pix: bool,
    pub card: bool,
    pub boleto: bool,
}

} // verus!
