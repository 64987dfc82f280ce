pub mod gateway;
