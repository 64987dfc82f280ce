//! Builds Mercado Pago's "create order" request for a PIX payment intent.

use vstd::prelude::*;

use crate::application::context::gateway_request::GatewayRequestContext;
use crate::domain::value_objects::customer::document::DocumentType;
use crate::domain::value_objects::gateway_attempt_id::uuid_text;
use crate::domain::value_objects::payment_method::payment_method::PaymentMethod;
use crate::gateways::error::GatewayError;
use crate::gateways::mercado_pago::request::{
    CreateOrderRequest, Identification, MpPaymentMethodId, MpPaymentMethodType, Payer, Payment,
    PixPaymentMethod, Transactions,
};
use crate::gateways::mercado_pago::utils::{iso8601_duration, seconds_to_iso8601};
use crate::text::{decimal, decimal_string};

verus! {

/// The shortest PIX expiration Mercado Pago is sent: 30 minutes.
pub const EXPIRATION_MIN_SECS: u32 = 1_800;

/// The longest PIX expiration Mercado Pago is sent: 30 days.
pub const EXPIRATION_MAX_SECS: u32 = 2_592_000;

/// `secs` brought into `EXPIRATION_MIN_SECS..=EXPIRATION_MAX_SECS`.
pub open spec fn clamped_expiration(secs: u64) -> nat {
    if secs < EXPIRATION_MIN_SECS {
        EXPIRATION_MIN_SECS as nat
    } else if secs > EXPIRATION_MAX_SECS {
        EXPIRATION_MAX_SECS as nat
    } else {
        secs as nat
    }
}

/// The expiration sent is always between 30 minutes and 30 days, and is the
/// requested one whenever that already lies in the range.
pub proof fn law_expiration_in_range(secs: u64)
    ensures
        EXPIRATION_MIN_SECS <= clamped_expiration(secs) <= EXPIRATION_MAX_SECS,
        EXPIRATION_MIN_SECS <= secs <= EXPIRATION_MAX_SECS ==> clamped_expiration(secs) == secs,
{
}

/// The label Mercado Pago uses for a document kind.
pub open spec fn document_label(t: DocumentType) -> Seq<char> {
    match t {
        DocumentType::Cpf => "CPF"@,
        DocumentType::Cnpj => "CNPJ"@,
    }
}

/// The request built for a PIX intent: an automatic online order whose
/// external reference is the attempt's UUID, with one PIX payment of the
/// intent's amount that expires after the clamped expiration, for a payer
/// identified by e-mail, name (as first name) and document.
pub open spec fn pix_order_request(req: CreateOrderRequest, input: GatewayRequestContext) -> bool {
    let intent = input.payment_intent;
    let amount = decimal(intent.amount@ as nat);
    let secs = clamped_expiration(intent.payment_method->Pix_0.expires_in_seconds);
    &&& req.order_type@ == "online"@
    &&& req.processing_mode@ == "automatic"@
    &&& req.total_amount@ == amount
    &&& req.external_reference@ == uuid_text(input.gateway_attempt_id@)
    &&& req.description is None
    &&& req.payer.email@ == intent.payer.email@
    &&& req.payer.first_name matches Some(n) && n@ == intent.payer.name@
    &&& req.payer.last_name is None
    &&& req.payer.identification matches Some(id) && id.id_type@ == document_label(
        intent.payer.document.kind(),
    ) && id.number@ == intent.payer.document.number_view()
    &&& req.payer.address is None
    &&& req.transactions.payments@.len() == 1
    &&& req.transactions.payments@[0] matches Payment::Pix {
        amount: a,
        payment_method: m,
        expiration_time: Some(e),
    } && a@ == amount && m.id == MpPaymentMethodId::Pix && m.type_payment
        == MpPaymentMethodType::BankTransfer && e@ == iso8601_duration(secs)
}

/// Maps CorvoPay's intents to Mercado Pago's PIX orders.
pub struct MpPixMapper;

impl MpPixMapper {
    /// Builds the order request for a PIX intent; any other payment method is
    /// `InvalidPaymentMethod`.
    pub fn to_request(input: &GatewayRequestContext<'_>) -> (r: Result<CreateOrderRequest, GatewayError>)
        ensures
            !(input.payment_intent.payment_method is Pix) ==> r == Err::<
                CreateOrderRequest,
                GatewayError,
            >(GatewayError::InvalidPaymentMethod),
            input.payment_intent.payment_method is Pix ==> (r matches Ok(req) && pix_order_request(
                req,
                *input,
            )),
    {
        // INTENT
        let intent = input.payment_intent;

        // ATTEMPT
        let id_attempt = &input.gateway_attempt_id;

        // PIX
        let pix = match &intent.payment_method {
            PaymentMethod::Pix(pix) => pix,
            _ => return Err(GatewayError::InvalidPaymentMethod),
        };

        // AMOUNT
        let amount = decimal_string(intent.amount.cents());

        // EXPIRATION
        let expiration_time: u32 = if pix.expires_in_seconds < EXPIRATION_MIN_SECS as u64 {
            EXPIRATION_MIN_SECS
        } else if pix.expires_in_seconds > EXPIRATION_MAX_SECS as u64 {
            EXPIRATION_MAX_SECS
        } else {
            pix.expires_in_seconds as u32
        };

        // PAYER
        let payer = &intent.payer;

        let document_type = match payer.document.document_type() {
            DocumentType::Cpf => "CPF",
            DocumentType::Cnpj => "CNPJ",
        };

        let document = Identification {
            id_type: String::from_str(document_type),
            number: String::from_str(payer.document.number()),
        };

        let mp_payer = Payer {
            email: String::from_str(payer.email.as_str()),
            first_name: Some(String::from_str(payer.name.as_str())),
            last_name: None,
            identification: Some(document),
            address: None,
        };

        // PAYMENT METHOD
        let payment_method = PixPaymentMethod {
            id: MpPaymentMethodId::Pix,
            type_payment: MpPaymentMethodType::BankTransfer,
        };

        // PAYMENT
        let payment = Payment::Pix {
            amount: amount.clone(),
            payment_method: payment_method,
            expiration_time: Some(seconds_to_iso8601(expiration_time)),
        };

        // TRANSACTIONS
        let mut payments: Vec<Payment> = Vec::new();
        payments.push(payment);
        let transactions = Transactions { payments };

        Ok(
            CreateOrderRequest {
                order_type: String::from_str("online"),
                processing_mode: String::from_str("automatic"),
                total_amount: amount,
                external_reference: id_attempt.to_uuid_string(),
                description: None,
                payer: mp_payer,
                transactions: transactions,
            },
        )
    }
}

} // verus!
