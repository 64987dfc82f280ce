//! CorvoPay payment-gateway domain: validated customer value objects,
//! amounts, payment-status normalisation and the Mercado Pago PIX order mapper.

pub mod application;
pub mod contracts;
pub mod domain;
pub mod error;
pub mod gateways;
pub mod text;
