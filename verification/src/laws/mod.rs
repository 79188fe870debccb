//! What holds of the launcher as a whole.
//!
//! Many of these laws speak of what a function may return: they take its arguments and any result
//! that its contract allows, and say in plain values how the two belong together.

pub mod digests;
pub mod folders;
pub mod inspections;
pub mod likeness;
pub mod platforms;
pub mod records;
pub mod texts;
pub mod updates;
pub mod windows;
pub mod writes;
