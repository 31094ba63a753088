//! The canonical key and signature codec: platform encodings in, the 33-byte
//! compressed SEC1 public key and the 64-byte `r || s` signature out.
use vstd::prelude::*;
use p256::elliptic_curve::sec1::ToEncodedPoint;
use x509_parser::prelude::FromDer;
use crate::der::{
    der_signature, der_signature_scalars, der_to_fixed_width, lemma_der_signature_round_trip,
    SEQUENCE_TAG,
};
use crate::error::{SecureEnvError, SecureEnvResult};

verus! {

/// Order `n` of the P-256 group.
pub open spec fn p256_order() -> int {
    let w: int = 0x1_0000_0000int * 0x1_0000_0000int;
    ((0xFFFF_FFFF_0000_0000int * w + 0xFFFF_FFFF_FFFF_FFFFint) * w + 0xBCE6_FAAD_A717_9E84int) * w
        + 0xF3B9_CAC2_FC63_2551int
}

/// The integer that the bytes `s` hold, big-endian.
pub open spec fn be_value(s: Seq<u8>) -> int
    decreases s.len(),
{
    if s.len() == 0 {
        0
    } else {
        be_value(s.drop_last()) * 256 + s.last()
    }
}

/// A signature scalar in the valid range `1..n`.
pub open spec fn scalar_in_range(s: Seq<u8>) -> bool {
    0 < be_value(s) < p256_order()
}

/// A fixed-width `r || s` whose two scalars are both in range.
pub open spec fn valid_fixed_signature(sig: Seq<u8>) -> bool {
    &&& sig.len() == 64
    &&& scalar_in_range(sig.subrange(0, 32))
    &&& scalar_in_range(sig.subrange(32, 64))
}

/// The canonical signature that a DER-encoded ECDSA signature stands for.
pub open spec fn canonical_signature(der: Seq<u8>) -> Option<Seq<u8>> {
    match der_signature_scalars(der) {
        Some(sig) => if valid_fixed_signature(sig) {
            Some(sig)
        } else {
            None
        },
        None => None,
    }
}

/// Relies on `p256::ecdsa::Signature::from_slice` and `Signature::to_vec`: a
/// slice is accepted iff it is 64 bytes whose halves are big-endian scalars in
/// `1..n`, and the accepted signature serializes back to the same bytes.
#[verifier::external_body]
fn p256_fixed_signature(sig: &[u8]) -> (r: Option<Vec<u8>>)
    ensures
        r is Some <==> valid_fixed_signature(sig@),
        r matches Some(v) ==> v@ == sig@,
{
    p256::ecdsa::Signature::from_slice(sig).ok().map(|s| s.to_vec())
}

/// Decodes a DER-encoded P-256 ECDSA signature into its canonical 64-byte
/// `r || s` form, each scalar zero-padded to 32 big-endian bytes.
pub fn decode_signature(der: &[u8]) -> (r: SecureEnvResult<Vec<u8>>)
    ensures
        r matches Ok(v) ==> canonical_signature(der@) == Some(v@) && v@.len() == 64,
        r matches Err(e) ==> canonical_signature(der@) is None && e is MalformedSignature,
{
    match der_to_fixed_width(der) {
        Some(fixed) => match p256_fixed_signature(fixed.as_slice()) {
            Some(sig) => Ok(sig),
            None => Err(SecureEnvError::MalformedSignature(
                "signature scalar out of range".to_owned(),
            )),
        },
        None => Err(SecureEnvError::MalformedSignature("not a DER ECDSA signature".to_owned())),
    }
}

/// `decode_signature` is a left inverse of DER encoding: a canonical signature
/// (two scalars in `1..n`), encoded in DER, decodes to the same 64 bytes, also
/// where a scalar's high bit makes DER prepend a zero byte.
pub proof fn lemma_decode_signature_round_trip(sig: Seq<u8>)
    requires
        valid_fixed_signature(sig),
    ensures
        canonical_signature(der_signature(sig)) == Some(sig),
{
    lemma_der_signature_round_trip(sig);
}

/// Whether `p256::PublicKey::from_sec1_bytes` accepts the bytes: a SEC1
/// encoding of a point of P-256 other than the identity.
pub uninterp spec fn is_p256_point(sec1: Seq<u8>) -> bool;

/// The subject public key bits of the X.509 SubjectPublicKeyInfo at the
/// start of `der`, as x509-parser reads them.
pub uninterp spec fn spki_key_bits(der: Seq<u8>) -> Option<Seq<u8>>;

/// A SEC1 compressed (`02`/`03`, 33 bytes) or uncompressed (`04`, 65 bytes)
/// point encoding.
pub open spec fn is_sec1_encoding(p: Seq<u8>) -> bool {
    ||| p.len() == 33 && (p[0] == 2 || p[0] == 3)
    ||| p.len() == 65 && p[0] == 4
}

/// The compressed SEC1 encoding of the point `p`: the parity of `y` as the
/// tag `02` or `03`, then `x`.
pub open spec fn compressed_sec1(p: Seq<u8>) -> Seq<u8> {
    if p[0] == 4 {
        seq![(2 + p[64] % 2) as u8] + p.subrange(1, 33)
    } else {
        p
    }
}

/// Relies on `p256::PublicKey::from_sec1_bytes` and
/// `to_encoded_point(true)`: a valid point is re-encoded with the tag of the
/// parity of its `y` followed by its `x`, both unchanged.
#[verifier::external_body]
fn p256_compressed_point(sec1: &[u8]) -> (r: Option<Vec<u8>>)
    ensures
        r is Some <==> is_p256_point(sec1@),
        r matches Some(v) ==> (is_sec1_encoding(sec1@) ==> v@ == compressed_sec1(sec1@)),
{
    p256::PublicKey::from_sec1_bytes(sec1).ok().map(|k| k.to_encoded_point(true).as_bytes().to_vec())
}

/// Relies on `x509_parser`'s `SubjectPublicKeyInfo::from_der`: the bits of
/// its `subject_public_key`.
#[verifier::external_body]
fn x509_subject_key_bits(der: &[u8]) -> (r: Option<Vec<u8>>)
    ensures
        r matches Some(v) ==> spki_key_bits(der@) == Some(v@),
        r is None ==> spki_key_bits(der@) is None,
{
    x509_parser::x509::SubjectPublicKeyInfo::from_der(der).ok().map(
        |(_, spki)| spki.subject_public_key.data.to_vec(),
    )
}

/// The point encoding that a platform export holds: the subject key of an
/// X.509 SubjectPublicKeyInfo (a DER SEQUENCE), or else the bytes themselves
/// as a SEC1 point.
pub open spec fn exported_point(raw: Seq<u8>) -> Option<Seq<u8>> {
    if raw.len() > 0 && raw[0] == SEQUENCE_TAG {
        spki_key_bits(raw)
    } else {
        Some(raw)
    }
}

/// The canonical public key of a platform export.
pub open spec fn canonical_public_key(raw: Seq<u8>) -> Option<Seq<u8>> {
    match exported_point(raw) {
        Some(p) => if is_sec1_encoding(p) && is_p256_point(p) {
            Some(compressed_sec1(p))
        } else {
            None
        },
        None => None,
    }
}

/// The canonical public key depends on the exported point alone: an X.509
/// SubjectPublicKeyInfo and the bare SEC1 point it carries give the same key.
pub proof fn lemma_public_key_of_spki_is_key_of_point(spki: Seq<u8>, point: Seq<u8>)
    requires
        spki.len() > 0 && spki[0] == SEQUENCE_TAG,
        spki_key_bits(spki) == Some(point),
        !(point.len() > 0 && point[0] == SEQUENCE_TAG),
    ensures
        canonical_public_key(spki) == canonical_public_key(point),
{
}

/// Decodes an exported P-256 public key, an X.509 SubjectPublicKeyInfo or a
/// SEC1 compressed or uncompressed point, into the 33-byte compressed SEC1
/// encoding.
pub fn decode_public_key(raw: &[u8]) -> (r: SecureEnvResult<Vec<u8>>)
    ensures
        r matches Ok(v) ==> canonical_public_key(raw@) == Some(v@),
        r matches Ok(v) ==> v@.len() == 33 && (v@[0] == 2 || v@[0] == 3),
        r matches Err(e) ==> canonical_public_key(raw@) is None && e is MalformedKey,
{
    let point: Vec<u8> = if raw.len() > 0 && raw[0] == SEQUENCE_TAG {
        match x509_subject_key_bits(raw) {
            Some(bits) => bits,
            None => {
                return Err(
                    SecureEnvError::MalformedKey("not an X.509 SubjectPublicKeyInfo".to_owned()),
                );
            },
        }
    } else {
        vstd::slice::slice_to_vec(raw)
    };
    let n = point.len();
    let sec1 = (n == 33 && (point[0] == 2 || point[0] == 3)) || (n == 65 && point[0] == 4);
    if !sec1 {
        return Err(SecureEnvError::MalformedKey("not a SEC1 point encoding".to_owned()));
    }
    match p256_compressed_point(point.as_slice()) {
        Some(compressed) => Ok(compressed),
        None => Err(SecureEnvError::MalformedKey("not a point of P-256".to_owned())),
    }
}

} // verus!
