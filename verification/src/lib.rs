//! Diagram rendering service core: configuration, provider registry,
//! request validation, circuit breaking, rate limiting and authentication.

pub mod diagrams;
pub mod interface;
pub mod browser;
pub mod capabilities;
pub mod cli;
pub mod config;
pub mod text;
pub mod server;
pub mod trusted;
pub mod utils;
