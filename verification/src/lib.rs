pub mod codec;
pub mod config;
pub mod error;
pub mod gateway;
pub mod messages;
pub mod sale;
pub mod tokens;
