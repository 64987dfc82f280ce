pub mod context;
pub mod dto;
