pub mod mapper;
