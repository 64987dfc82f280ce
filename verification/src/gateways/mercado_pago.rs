pub mod client;
pub mod gateway;
pub mod info;
pub mod pix;
pub mod request;
pub mod response;
pub mod utils;
