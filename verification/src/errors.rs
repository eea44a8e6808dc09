use vstd::prelude::*;

verus! {

/// The error kinds this library reports. The surrounding web layer maps each
/// kind onto an HTTP status code via [`AppError::status_code`].
#[derive(Debug)]
pub enum AppError {
    /// Missing or invalid credentials, unknown username, or wrong password.
    Unauthorized(String),
    /// Malformed Authorization header: bad base64, bad UTF-8, or a missing separator.
    BadRequest(String),
    /// Well-formed but non-matching operator credentials.
    Forbidden(String),
    /// AEAD encryption or decryption failure, including tag-verification failure.
    CryptoError,
    /// An envelope shorter than the minimum nonce length.
    FormatError,
    /// Missing or malformed encryption key.
    ConfigurationError,
    /// Password hashing failed, or a stored hash is structurally malformed.
    HashingError,
    /// Decrypted bytes are not valid text.
    EncodingError,
}

/// The HTTP status code each error kind translates to.
pub open spec fn spec_status_code(e: AppError) -> u16 {
    match e {
        AppError::Unauthorized(_) => 401,
        AppError::BadRequest(_) => 400,
        AppError::Forbidden(_) => 403,
        AppError::CryptoError => 500,
        AppError::FormatError => 500,
        AppError::ConfigurationError => 500,
        AppError::HashingError => 500,
        AppError::EncodingError => 500,
    }
}

impl AppError {
    pub fn status_code(&self) -> (code: u16)
        ensures
            code == spec_status_code(*self),
    {
        match self {
            AppError::Unauthorized(_) => 401,
            AppError::BadRequest(_) => 400,
            AppError::Forbidden(_) => 403,
            AppError::CryptoError => 500,
            AppError::FormatError => 500,
            AppError::ConfigurationError => 500,
            AppError::HashingError => 500,
            AppError::EncodingError => 500,
        }
    }
}

} // verus!
