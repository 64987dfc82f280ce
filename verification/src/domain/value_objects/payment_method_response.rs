pub mod boleto;
pub mod card;
pub mod payment_method_response;
pub mod pix;
