use vstd::prelude::*;

verus! {

/// The failures of the secure environment.
///
/// Each kind carries a diagnostic text; where the failure comes from the
/// native platform, that text is the platform's own message.
#[derive(Debug)]
pub enum SecureEnvError {
    /// The calling thread could not be attached to the native runtime.
    UnableToAttachRuntime(String),
    /// A step of key generation failed.
    UnableToGenerateKey(String),
    /// The device offers no key storage that meets the hardware bar.
    InsufficientHardwareSupport(String),
    /// No key is stored under the identifier (the text is the identifier).
    KeyNotFound(String),
    /// The key store could not be searched or the entry not be materialized.
    UnableToLookupKey(String),
    /// The public key could not be exported or decoded.
    UnableToGetPublicKey(String),
    /// The platform exported the public key in another format than expected
    /// (the text is the advertised format).
    UnexpectedKeyFormat(String),
    /// The signing operation or the decoding of its result failed.
    UnableToSign(String),
    /// Bytes that are not a valid P-256 public key.
    MalformedKey(String),
    /// Bytes that are not a valid DER-encoded P-256 ECDSA signature.
    MalformedSignature(String),
}

/// Result of the operations of the secure environment.
pub type SecureEnvResult<T> = Result<T, SecureEnvError>;

} // verus!
