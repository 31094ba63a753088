//! Operations on a located key pair: the platform exports its public key or
//! signs, and these functions turn what it returned into the canonical forms.
use vstd::prelude::*;
use crate::codec::{canonical_public_key, canonical_signature, decode_public_key, decode_signature};
use crate::error::{SecureEnvError, SecureEnvResult};

verus! {

/// What a key pair offers its users, whatever platform holds it.
pub trait KeyOps {
    /// The 33-byte compressed SEC1 encoding of the public key.
    fn get_public_key(&self) -> SecureEnvResult<Vec<u8>>;

    /// The 64-byte `r || s` ECDSA signature of `msg` with SHA-256.
    fn sign(&self, msg: &[u8]) -> SecureEnvResult<Vec<u8>>;
}

/// The name of the one export format accepted from a key store that
/// advertises the format of its public keys.
pub open spec fn x509_format() -> Seq<char> {
    "X.509"@
}

/// What the export of a key store that advertises `format` gives: an error
/// naming any format but `X.509`, else the canonical key of the bytes.
pub open spec fn x509_export_result(
    format: Seq<char>,
    encoded: Seq<u8>,
    r: SecureEnvResult<Vec<u8>>,
) -> bool {
    if format != x509_format() {
        match r {
            Err(SecureEnvError::UnexpectedKeyFormat(m)) => m@ == format,
            _ => false,
        }
    } else {
        match (canonical_public_key(encoded), r) {
            (Some(k), Ok(v)) => v@ == k,
            (None, Err(SecureEnvError::UnableToGetPublicKey(_))) => true,
            _ => false,
        }
    }
}

/// The canonical public key of a key store export that advertises its
/// `format`: only an `X.509` export is accepted, as a defence against a
/// platform that changes its serialization.
pub fn public_key_from_x509_export(format: &str, encoded: &[u8]) -> (r: SecureEnvResult<Vec<u8>>)
    ensures
        x509_export_result(format@, encoded@, r),
        r matches Ok(v) ==> v@.len() == 33 && (v@[0] == 2 || v@[0] == 3),
{
    let advertised = format.to_owned();
    if advertised != "X.509".to_owned() {
        return Err(SecureEnvError::UnexpectedKeyFormat(advertised));
    }
    public_key_from_sec1_export(encoded)
}

/// The canonical public key of a key store export without a format tag: an
/// X.509 SubjectPublicKeyInfo or a bare SEC1 point.
pub fn public_key_from_sec1_export(encoded: &[u8]) -> (r: SecureEnvResult<Vec<u8>>)
    ensures
        r matches Ok(v) ==> canonical_public_key(encoded@) == Some(v@),
        r matches Ok(v) ==> v@.len() == 33 && (v@[0] == 2 || v@[0] == 3),
        r matches Err(e) ==> canonical_public_key(encoded@) is None && e is UnableToGetPublicKey,
{
    match decode_public_key(encoded) {
        Ok(key) => Ok(key),
        Err(SecureEnvError::MalformedKey(m)) => Err(SecureEnvError::UnableToGetPublicKey(m)),
        Err(_) => Err(SecureEnvError::UnableToGetPublicKey("unexpected decoding error".to_owned())),
    }
}

/// The canonical signature of what the platform's signing call returned, a
/// DER-encoded ECDSA signature.
pub fn signature_from_native(der: &[u8]) -> (r: SecureEnvResult<Vec<u8>>)
    ensures
        r matches Ok(v) ==> canonical_signature(der@) == Some(v@) && v@.len() == 64,
        r matches Err(e) ==> canonical_signature(der@) is None && e is UnableToSign,
{
    match decode_signature(der) {
        Ok(sig) => Ok(sig),
        Err(SecureEnvError::MalformedSignature(m)) => Err(SecureEnvError::UnableToSign(m)),
        Err(_) => Err(SecureEnvError::UnableToSign("unexpected decoding error".to_owned())),
    }
}

} // verus!
