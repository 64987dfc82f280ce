pub mod document;
pub mod email;
pub mod name;
pub mod payer;
