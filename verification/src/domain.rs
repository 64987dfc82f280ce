pub mod error;
pub mod gateway;
pub mod value_objects;
