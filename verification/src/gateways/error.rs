//! Errors of gateway integrations.

use vstd::prelude::*;

use crate::domain::gateway::gateway::GatewayName;

verus! {

#[verifier::external_type_specification]
#[verifier::external_body]
pub struct ExReqwestError(reqwest::Error);

/// What went wrong while talking to a gateway.
#[derive(Debug)]
pub enum GatewayError {
    // ── Mapper / integration ──────────────────────────────
    /// The payment method does not fit the gateway operation.
    InvalidPaymentMethod,
    Mapper { reason: String },
    // ── HTTP ──────────────────────────────────────────────
    Unauthorized { gateway: GatewayName },
    Network { gateway: GatewayName, source: reqwest::Error },
    InvalidResponse { gateway: GatewayName, reason: String },
    ApiError { gateway: GatewayName, status: u16, message: String },
}

/// Tags a transport failure with the gateway it came from.
pub trait GatewayResultExt<T>: Sized {
    fn gateway_err(self, gateway: GatewayName) -> Result<T, GatewayError>;
}

impl<T> GatewayResultExt<T> for Result<T, reqwest::Error> {
    /// Keeps a success; turns a `reqwest` error into `GatewayError::Network`
    /// for `gateway`.
    fn gateway_err(self, gateway: GatewayName) -> (r: Result<T, GatewayError>)
        ensures
            self matches Ok(v) ==> r == Ok::<T, GatewayError>(v),
            self matches Err(e) ==> r == Err::<T, GatewayError>(
                GatewayError::Network { gateway, source: e },
            ),
    {
        match self {
            Ok(v) => Ok(v),
            Err(e) => Err(GatewayError::Network { gateway, source: e }),
        }
    }
}

} // verus!
