//! The verified core of the Sunrise launcher.

pub mod atomic_write;
pub mod clock;
pub mod digest;
pub mod error;
pub mod inspection;
pub mod laws;
pub mod models;
pub mod paths;
pub mod storage;
pub mod text;
pub mod window;
