//! Uniform success/error envelope handed to the transport layer, and the
//! typed validation errors of the core operations.

use vstd::prelude::*;

verus! {

/// Every failure of a core operation is one of these typed errors; no
/// operation panics on any input.
#[derive(Clone, Copy, Debug, PartialEq, Eq, Structural)]
pub enum ApiError {
    /// A required text field was empty.
    MissingField,
    /// Malformed base58 or base64 text.
    InvalidEncoding,
    /// Decoded byte count is wrong for the target type.
    InvalidLength,
    /// The public half of a 64-byte keypair blob does not match the half
    /// derived from its secret seed.
    InvalidKeypair,
    /// A public-key text field failed to parse.
    InvalidPublicKey,
    /// A numeric argument was zero or otherwise out of range.
    InvalidAmount,
    /// No bump in 0..=255 produced an off-curve derived address.
    DerivationExhausted,
    /// An instruction construction constraint was violated.
    InstructionBuildFailure,
}

impl ApiError {
    /// User-facing message for the error.
    pub fn message(&self) -> &'static str {
        match self {
            ApiError::MissingField => "Missing required fields",
            ApiError::InvalidEncoding => "Invalid encoding",
            ApiError::InvalidLength => "Invalid key length",
            ApiError::InvalidKeypair => "Failed to parse keypair",
            ApiError::InvalidPublicKey => "Invalid public key",
            ApiError::InvalidAmount => "Amount must be greater than 0",
            ApiError::DerivationExhausted => "Could not derive an off-curve address",
            ApiError::InstructionBuildFailure => "Failed to create instruction",
        }
    }
}

/// Tagged envelope around a core result: either the success payload or a
/// user-facing error message.
pub enum ApiResponse<T> {
    Success { success: bool, data: T },
    Error { success: bool, error: String },
}

/// Wraps a payload in the success arm of the envelope.
pub fn success<T>(data: T) -> (r: ApiResponse<T>)
    ensures
        r matches ApiResponse::Success { success: s, data: d } && s == true && d == data,
{
    ApiResponse::Success { success: true, data }
}

/// Wraps a message in the error arm of the envelope.
pub fn error<T>(message: &str) -> (r: ApiResponse<T>)
    ensures
        r matches ApiResponse::Error { success: s, error: e } && s == false && e@ == message@,
{
    ApiResponse::Error { success: false, error: message.to_string() }
}

} // verus!
