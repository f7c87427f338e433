pub mod config;
pub mod decimal;
pub mod enums;
pub mod errors;
pub mod json;
pub mod laws;
pub mod streams;
pub mod text;
pub mod types;

pub use config::StreamConfig;
