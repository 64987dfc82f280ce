pub mod boleto;
pub mod card;
pub mod payment_method;
pub mod pix;
