//! Keypair locations and creation, the signing pipeline's record types, and
//! message signing.
pub mod keygen;
pub mod payload;
pub mod resolver;
pub mod signer;
