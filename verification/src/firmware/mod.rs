//! The device: takes photos on request and uploads them.

pub mod camera;
pub mod config;
pub mod led;
pub mod session;
pub mod stack;
pub mod types;
pub mod upload;
