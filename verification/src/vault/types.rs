//! Vault secrets and the errors of reading a vault.
use vstd::prelude::*;

verus! {

/// The database credentials a vault holds for this application.
pub struct VaultSecrets {
    pub host: String,
    pub user: String,
    pub pass: String,
    pub port: u16,
    pub database: String,
    pub rdbms: String,
}

/// Why a vault could not be read.
pub enum VaultError {
    ReadError(String),
    HeaderError,
    HexDecodeError(&'static str),
    KeyDeriveError,
    CipherError(&'static str),
    PaddingError(&'static str),
    Utf8Error,
    YamlError(String),
    HmacError,
    PermissionError(String),
}

/// The mathematical reading of a [`VaultError`].
pub enum VaultFailure {
    ReadError(Seq<char>),
    HeaderError,
    HexDecodeError(Seq<char>),
    KeyDeriveError,
    CipherError(Seq<char>),
    PaddingError(Seq<char>),
    Utf8Error,
    YamlError(Seq<char>),
    HmacError,
    PermissionError(Seq<char>),
}

impl View for VaultError {
    type V = VaultFailure;

    open spec fn view(&self) -> VaultFailure {
        match self {
            VaultError::ReadError(m) => VaultFailure::ReadError(m@),
            VaultError::HeaderError => VaultFailure::HeaderError,
            VaultError::HexDecodeError(m) => VaultFailure::HexDecodeError(m@),
            VaultError::KeyDeriveError => VaultFailure::KeyDeriveError,
            VaultError::CipherError(m) => VaultFailure::CipherError(m@),
            VaultError::PaddingError(m) => VaultFailure::PaddingError(m@),
            VaultError::Utf8Error => VaultFailure::Utf8Error,
            VaultError::YamlError(m) => VaultFailure::YamlError(m@),
            VaultError::HmacError => VaultFailure::HmacError,
            VaultError::PermissionError(m) => VaultFailure::PermissionError(m@),
        }
    }
}

} // verus!
