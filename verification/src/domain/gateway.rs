pub mod gateway;
pub mod gateway_capabilities;
pub mod gateway_info;
