//! Rows of the license database, and how the pipeline addresses the database.
pub mod pool;
pub mod reader;
pub mod types;
pub mod writer;
