//! The body of Mercado Pago's "create order" request, field for field.

use vstd::prelude::*;

verus! {

// ── Shared enums ───────────────────────────────────────

/// Mercado Pago's payment method identifiers.
#[derive(Debug, Clone, Copy, PartialEq, Eq, Structural)]
pub enum MpPaymentMethodId {
    Pix,
    Master,
    Visa,
    Elo,
    Hipercard,
    Amex,
    Boleto,
    Pec,
}

/// Mercado Pago's payment method types.
#[derive(Debug, Clone, Copy, PartialEq, Eq, Structural)]
pub enum MpPaymentMethodType {
    BankTransfer,
    CreditCard,
    DebitCard,
    Ticket,
}

// ── Payer ──────────────────────────────────────────────

/// The payer's taxpayer document (`type` is `"CPF"` or `"CNPJ"`).
#[derive(Debug)]
pub struct Identification {
    pub id_type: String,
    pub number: String,
}

#[derive(Debug)]
pub struct Address {
    pub street_name: String,
    pub street_number: String,
    pub zip_code: String,
    pub neighborhood: String,
    pub state: String,
    pub city: String,
}

#[derive(Debug)]
pub struct Payer {
    pub email: String,
    pub first_name: Option<String>,
    pub last_name: Option<String>,
    pub identification: Option<Identification>,
    pub address: Option<Address>,
}

// ── Payment methods ────────────────────────────────────

#[derive(Debug)]
pub struct PixPaymentMethod {
    pub id: MpPaymentMethodId,
    pub type_payment: MpPaymentMethodType,
}

#[derive(Debug)]
pub struct CardPaymentMethod {
    pub id: MpPaymentMethodId,
    pub type_payment: MpPaymentMethodType,
    pub token: String,
    pub installments: u8,
}

#[derive(Debug)]
pub struct BoletoPaymentMethod {
    pub id: MpPaymentMethodId,
    pub type_payment: MpPaymentMethodType,
}

// ── Payment ────────────────────────────────────────────

/// One payment of an order; the amount is in cents, as decimal text.
#[allow(inconsistent_fields)]
#[derive(Debug)]
pub enum Payment {
    Pix { amount: String, payment_method: PixPaymentMethod, expiration_time: Option<String> },
    Card { amount: String, payment_method: CardPaymentMethod },
    Boleto { amount: String, payment_method: BoletoPaymentMethod },
}

// ── Transactions ───────────────────────────────────────

#[derive(Debug)]
pub struct Transactions {
    pub payments: Vec<Payment>,
}

// ── Order ──────────────────────────────────────────────

/// The "create order" request.
#[derive(Debug)]
pub struct CreateOrderRequest {
    pub order_type: String,
    pub processing_mode: String,
    pub total_amount: String,
    pub external_reference: String,
    pub description: Option<String>,
    pub payer: Payer,
    pub transactions: Transactions,
}

} // verus!
