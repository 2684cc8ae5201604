pub mod config;
pub mod dict;
