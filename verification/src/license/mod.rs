//! Canonical license payloads, their signatures, and the rules that decide
//! whether a license is issued, reused or valid.
pub mod json;
pub mod types;
pub mod canonical;
pub mod keys;
pub mod errors;
pub mod evaluator;
pub mod evaluator_error;
pub mod decode;
pub mod crypto;
pub mod payload;
pub mod signer;
pub mod validator;
pub mod writer;
pub mod generator;
pub mod laws;
