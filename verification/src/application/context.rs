pub mod gateway_request;
