//! The logger: schedules captures, receives the photos and shows its state.

pub mod adjust;
pub mod config;
pub mod keys;
pub mod publisher;
pub mod server;
pub mod state;
pub mod storage;
pub mod tui;
pub mod upload;
pub mod view;
