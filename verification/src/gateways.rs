pub mod error;
pub mod mercado_pago;
