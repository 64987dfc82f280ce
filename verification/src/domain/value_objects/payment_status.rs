//! The payment status normalised across gateways.

use vstd::prelude::*;

use crate::domain::gateway::gateway::GatewayName;
use crate::text::same_chars;

verus! {

/// Normalised payment status, mapped from each gateway's own status strings.
#[derive(Debug, Clone, Copy, PartialEq, Eq, Structural)]
pub enum PaymentStatus {
    /// MP: `pending`, `action_required`, `in_process`.
    Pending,
    /// MP: `approved`.
    Paid,
    /// MP: `rejected`, `cancelled`, `charged_back`.
    Failed,
    /// MP: `refunded`.
    Refunded,
    /// Pagar.me `pending_refund`; Mercado Pago has no equivalent.
    PendingRefund,
    /// A PIX charge that expired unpaid.
    Expired,
    /// A status that no mapping knows.
    InvalidResponse,
}

/// The normalised status of a Mercado Pago status string (matched exactly,
/// case and white space included).
pub open spec fn mercado_pago_status(s: Seq<char>) -> PaymentStatus {
    if s == "approved"@ {
        PaymentStatus::Paid
    } else if s == "action_required"@ || s == "pending"@ || s == "in_process"@ {
        PaymentStatus::Pending
    } else if s == "rejected"@ || s == "cancelled"@ || s == "charged_back"@ {
        PaymentStatus::Failed
    } else if s == "refunded"@ {
        PaymentStatus::Refunded
    } else if s == "expired"@ {
        PaymentStatus::Expired
    } else {
        PaymentStatus::InvalidResponse
    }
}

/// Mercado Pago has no pending-refund status: no string maps to `PendingRefund`.
pub proof fn law_mercado_pago_never_pending_refund(s: Seq<char>)
    ensures
        mercado_pago_status(s) != PaymentStatus::PendingRefund,
{
}

impl PaymentStatus {
    /// Translates `status`, as `gateway` reports it, into the normalised status.
    /// Only Mercado Pago has a mapping.
    pub fn from_gateway(gateway: GatewayName, status: &str) -> (r: Self)
        requires
            gateway == GatewayName::MercadoPago,
        ensures
            r == mercado_pago_status(status@),
    {
        match gateway {
            GatewayName::MercadoPago => Self::from_mercado_pago(status),
            GatewayName::Pagarme => unreached(),
            GatewayName::Stripe => unreached(),
        }
    }

    fn from_mercado_pago(status: &str) -> (r: Self)
        ensures
            r == mercado_pago_status(status@),
    {
        if same_chars(status, "approved") {
            Self::Paid
        } else if same_chars(status, "action_required") {
            Self::Pending
        } else if same_chars(status, "pending") {
            Self::Pending
        } else if same_chars(status, "in_process") {
            Self::Pending
        } else if same_chars(status, "rejected") {
            Self::Failed
        } else if same_chars(status, "cancelled") {
            Self::Failed
        } else if same_chars(status, "charged_back") {
            Self::Failed
        } else if same_chars(status, "refunded") {
            Self::Refunded
        } else if same_chars(status, "expired") {
            Self::Expired
        } else {
            Self::InvalidResponse
        }
    }
}

} // verus!
