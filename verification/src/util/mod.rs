//! Small utilities shared by the rest of the library.
pub mod datetime;
pub mod helpers;
