//! Logic of a periodic photo logger and of the camera device that serves it.

pub mod calendar;
pub mod clock;
pub mod firmware;
pub mod json;
pub mod laws;
pub mod logger;
pub mod text;
pub mod topics;
