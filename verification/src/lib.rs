pub mod config;
pub mod consumer;
pub mod errors;
pub mod frame;
pub mod orchestrator;
pub mod stream;
pub mod token;
