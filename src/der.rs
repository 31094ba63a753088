//! The ASN.1 DER framing of an ECDSA signature, `SEQUENCE { INTEGER r, INTEGER s }`,
//! and its fixed-width form `r || s` (32 big-endian bytes each).
use vstd::prelude::*;

verus! {

/// Width of one P-256 scalar in bytes.
pub const SCALAR_LEN: usize = 32;

/// Width of a fixed-width `r || s` signature in bytes.
pub const SIGNATURE_LEN: usize = 64;

/// DER tag of a constructed SEQUENCE.
pub const SEQUENCE_TAG: u8 = 0x30;

/// DER tag of an INTEGER.
pub const INTEGER_TAG: u8 = 0x02;

/// `n` zero bytes.
pub open spec fn zeros(n: nat) -> Seq<u8> {
    Seq::new(n, |i: int| 0u8)
}

/// The scalar that the content octets `c` of a DER INTEGER hold, as 32
/// big-endian bytes: present when `c` encodes a non-negative integer in the
/// fewest octets and the integer fits in 32 bytes.
pub open spec fn der_uint_scalar(c: Seq<u8>) -> Option<Seq<u8>> {
    if c.len() == 0 || c[0] >= 0x80 || (c.len() > 1 && c[0] == 0 && c[1] < 0x80) {
        None
    } else {
        let mag = if c[0] == 0 && c.len() > 1 {
            c.drop_first()
        } else {
            c
        };
        if mag.len() > 32 {
            None
        } else {
            Some(zeros((32 - mag.len()) as nat) + mag)
        }
    }
}

/// The fixed-width `r || s` form of the DER signature `b`: a SEQUENCE of two
/// INTEGERs with short-form lengths and nothing after it.
pub open spec fn der_signature_scalars(b: Seq<u8>) -> Option<Seq<u8>> {
    if !(b.len() >= 4 && b[0] == SEQUENCE_TAG && b[1] < 0x80 && b[1] + 2 == b.len()
        && b[2] == INTEGER_TAG && b[3] < 0x80 && 4 + b[3] + 2 <= b.len()) {
        None
    } else {
        let r_end = 4 + b[3];
        if !(b[r_end] == INTEGER_TAG && b[r_end + 1] < 0x80 && r_end + 2 + b[r_end + 1]
            == b.len()) {
            None
        } else {
            match (
                der_uint_scalar(b.subrange(4, r_end)),
                der_uint_scalar(b.subrange(r_end + 2, b.len() as int)),
            ) {
                (Some(r), Some(s)) => Some(r + s),
                _ => None,
            }
        }
    }
}

/// `s` without its leading zero bytes, keeping at least one byte.
pub open spec fn strip_leading_zeros(s: Seq<u8>) -> Seq<u8>
    decreases s.len(),
{
    if s.len() > 1 && s[0] == 0 {
        strip_leading_zeros(s.drop_first())
    } else {
        s
    }
}

/// Content octets of the DER INTEGER that holds the big-endian value `scalar`.
pub open spec fn der_integer_content(scalar: Seq<u8>) -> Seq<u8> {
    let m = strip_leading_zeros(scalar);
    if m[0] >= 0x80 {
        seq![0u8] + m
    } else {
        m
    }
}

/// The DER INTEGER that holds the big-endian value `scalar`.
pub open spec fn der_integer(scalar: Seq<u8>) -> Seq<u8> {
    let c = der_integer_content(scalar);
    seq![INTEGER_TAG, c.len() as u8] + c
}

/// The DER encoding of the fixed-width signature `sig`.
pub open spec fn der_signature(sig: Seq<u8>) -> Seq<u8> {
    let body = der_integer(sig.subrange(0, 32)) + der_integer(sig.subrange(32, 64));
    seq![SEQUENCE_TAG, body.len() as u8] + body
}

proof fn lemma_strip_leading_zeros(s: Seq<u8>)
    requires
        s.len() >= 1,
    ensures
        1 <= strip_leading_zeros(s).len() <= s.len(),
        strip_leading_zeros(s).len() > 1 ==> strip_leading_zeros(s)[0] != 0,
        s == zeros((s.len() - strip_leading_zeros(s).len()) as nat) + strip_leading_zeros(s),
    decreases s.len(),
{
    if s.len() > 1 && s[0] == 0 {
        let t = s.drop_first();
        lemma_strip_leading_zeros(t);
        let m = strip_leading_zeros(t);
        let k = (t.len() - m.len()) as nat;
        assert(s =~= zeros(k + 1) + m) by {
            assert(t =~= zeros(k) + m);
            assert forall|i: int| 0 <= i < s.len() implies s[i] == (zeros(k + 1) + m)[i] by {
                if i > 0 {
                    assert(s[i] == t[i - 1]);
                }
            }
        }
    } else {
        assert(s =~= zeros(0) + s);
    }
}

proof fn lemma_der_integer_round_trip(scalar: Seq<u8>)
    requires
        scalar.len() == 32,
    ensures
        der_uint_scalar(der_integer_content(scalar)) == Some(scalar),
        1 <= der_integer_content(scalar).len() <= 33,
{
    lemma_strip_leading_zeros(scalar);
    let m = strip_leading_zeros(scalar);
    let c = der_integer_content(scalar);
    if m[0] >= 0x80 {
        assert(c.drop_first() =~= m);
    }
    assert(zeros((32 - m.len()) as nat) + m == scalar);
}

/// Decoding is a left inverse of DER encoding: the fixed-width form of the DER
/// encoding of any 64-byte `r || s` is that same `r || s`.
pub proof fn lemma_der_signature_round_trip(sig: Seq<u8>)
    requires
        sig.len() == 64,
    ensures
        der_signature_scalars(der_signature(sig)) == Some(sig),
{
    let r = sig.subrange(0, 32);
    let s = sig.subrange(32, 64);
    lemma_der_integer_round_trip(r);
    lemma_der_integer_round_trip(s);
    let cr = der_integer_content(r);
    let cs = der_integer_content(s);
    let ir = der_integer(r);
    let is = der_integer(s);
    let body = ir + is;
    let b = der_signature(sig);
    assert(b.len() == 2 + body.len());
    assert(b[1] == body.len() as u8);
    assert(b[2] == ir[0]);
    assert(b[3] == ir[1]);
    let r_end: int = 4 + cr.len() as int;
    assert(b[r_end] == is[0]);
    assert(b[r_end + 1] == is[1]);
    assert(b.subrange(4, r_end) =~= cr);
    assert(b.subrange(r_end + 2, b.len() as int) =~= cs);
    assert(r + s =~= sig);
}

/// Appends the scalar held by the DER INTEGER content `b[start..end]` to `out`
/// as 32 big-endian bytes; false, with `out` unchanged, where it holds none.
fn append_der_uint_scalar(b: &[u8], start: usize, end: usize, out: &mut Vec<u8>) -> (ok: bool)
    requires
        start <= end <= b@.len(),
    ensures
        ok == der_uint_scalar(b@.subrange(start as int, end as int)) is Some,
        ok ==> final(out)@ == old(out)@ + der_uint_scalar(
            b@.subrange(start as int, end as int),
        )->0,
        !ok ==> final(out)@ == old(out)@,
{
    let ghost c = b@.subrange(start as int, end as int);
    if start == end || b[start] >= 0x80 {
        return false;
    }
    if end - start > 1 && b[start] == 0 && b[start + 1] < 0x80 {
        return false;
    }
    let mag_start: usize = if b[start] == 0 && end - start > 1 {
        start + 1
    } else {
        start
    };
    assert(b@.subrange(mag_start as int, end as int) =~= if c[0] == 0 && c.len() > 1 {
        c.drop_first()
    } else {
        c
    });
    if end - mag_start > SCALAR_LEN {
        return false;
    }
    let pad: usize = SCALAR_LEN - (end - mag_start);
    let ghost init = out@;
    let mut i: usize = 0;
    while i < pad
        invariant
            i <= pad,
            out@ == init + zeros(i as nat),
        decreases pad - i,
    {
        out.push(0u8);
        i = i + 1;
        assert(out@ =~= init + zeros(i as nat));
    }
    let mut j: usize = mag_start;
    while j < end
        invariant
            mag_start <= j <= end <= b@.len(),
            out@ == init + zeros(pad as nat) + b@.subrange(mag_start as int, j as int),
        decreases end - j,
    {
        out.push(b[j]);
        j = j + 1;
        assert(out@ =~= init + zeros(pad as nat) + b@.subrange(mag_start as int, j as int));
    }
    assert(out@ =~= init + (zeros(pad as nat) + b@.subrange(mag_start as int, end as int)));
    true
}

/// The fixed-width `r || s` form of a DER-encoded signature, or `None` where
/// `der` is no DER SEQUENCE of two non-negative INTEGERs of at most 32 bytes.
pub fn der_to_fixed_width(der: &[u8]) -> (r: Option<Vec<u8>>)
    ensures
        r matches Some(v) ==> der_signature_scalars(der@) == Some(v@),
        r is None ==> der_signature_scalars(der@) is None,
{
    let n = der.len();
    if !(n >= 4 && der[0] == SEQUENCE_TAG && der[1] < 0x80 && der[1] as usize + 2 == n
        && der[2] == INTEGER_TAG && der[3] < 0x80 && 4 + der[3] as usize + 2 <= n) {
        return None;
    }
    let r_end: usize = 4 + der[3] as usize;
    if !(der[r_end] == INTEGER_TAG && der[r_end + 1] < 0x80 && r_end + 2 + der[r_end + 1] as usize
        == n) {
        return None;
    }
    let mut out: Vec<u8> = Vec::new();
    if !append_der_uint_scalar(der, 4, r_end, &mut out) {
        return None;
    }
    if !append_der_uint_scalar(der, r_end + 2, n, &mut out) {
        return None;
    }
    Some(out)
}

} // verus!
