//! The application-level error: a validation, (de)serialisation or gateway failure.

use vstd::prelude::*;

use crate::domain::error::ValidationError;
use crate::gateways::error::GatewayError;

verus! {

#[verifier::external_type_specification]
#[verifier::external_body]
pub struct ExSerdeJsonError(serde_json::Error);

/// Every failure the application reports.
#[derive(Debug)]
pub enum AppError {
    Validation(ValidationError),
    Serde(serde_json::Error),
    Gateway(GatewayError),
}

impl From<ValidationError> for AppError {
    fn from(e: ValidationError) -> (r: Self) {
        AppError::Validation(e)
    }
}

impl vstd::std_specs::convert::FromSpecImpl<ValidationError> for AppError {
    open spec fn obeys_from_spec() -> bool {
        true
    }

    open spec fn from_spec(e: ValidationError) -> Self {
        AppError::Validation(e)
    }
}

impl From<serde_json::Error> for AppError {
    fn from(e: serde_json::Error) -> (r: Self) {
        AppError::Serde(e)
    }
}

impl vstd::std_specs::convert::FromSpecImpl<serde_json::Error> for AppError {
    open spec fn obeys_from_spec() -> bool {
        true
    }

    open spec fn from_spec(e: serde_json::Error) -> Self {
        AppError::Serde(e)
    }
}

impl From<GatewayError> for AppError {
    fn from(e: GatewayError) -> (r: Self) {
        AppError::Gateway(e)
    }
}

impl vstd::std_specs::convert::FromSpecImpl<GatewayError> for AppError {
    open spec fn obeys_from_spec() -> bool {
        true
    }

    open spec fn from_spec(e: GatewayError) -> Self {
        AppError::Gateway(e)
    }
}

} // verus!
