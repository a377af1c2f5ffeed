//! What the operations are for: laws on every call of them, in terms of what goes in and what
//! comes out.

pub mod camera;
pub mod device;
pub mod keys;
pub mod messages;
pub mod requests;
pub mod screen;
pub mod stacking;
pub mod state;
pub mod storage;
pub mod text;
pub mod time;
