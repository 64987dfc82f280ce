//! Mercado Pago's answer to a PIX order, field for field.

use vstd::prelude::*;

verus! {

#[derive(Debug)]
pub struct MpPixResponse {
    pub id: String,
    pub type_data: String,
    pub total_amount: String,
    pub external_reference: String,
    pub country_code: String,
    pub status: String,
    pub status_detail: String,
    pub capture_mode: String,
    pub processing_mode: String,
    pub marketplace: String,
    pub transactions: MpResponseTransactions,
}

#[derive(Debug)]
pub struct MpResponseTransactions {
    pub payments: Vec<MpResponsePayment>,
}

#[derive(Debug)]
pub struct MpResponsePayment {
    pub id: String,
    pub reference_id: String,
    pub status: String,
    pub status_detail: String,
    pub amount: String,
    pub payment_method: MpResponsePaymentMethod,
}

#[derive(Debug)]
pub struct MpResponsePaymentMethod {
    /// For PIX: `"pix"`.
    pub id: MpPaymentMethodId,
    /// For PIX: `"bank_transfer"`.
    pub type_payment: MpPaymentMethodType,
    /// URL with the QR code, the copy-and-paste code and payment instructions.
    pub ticket_url: String,
    /// The alphanumeric copy-and-paste code.
    pub qr_code: String,
    /// The QR code image, in Base64.
    pub qr_code_base64: String,
}

/// A PIX answer can only carry the `pix` method.
#[derive(Debug, Clone, Copy, PartialEq, Eq, Structural)]
pub enum MpPaymentMethodId {
    Pix,
}

#[derive(Debug, Clone, Copy, PartialEq, Eq, Structural)]
pub enum MpPaymentMethodType {
    BankTransfer,
}

} // verus!
