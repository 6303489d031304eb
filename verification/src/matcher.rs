//! The allow-list matcher: computes a certificate's fingerprints in the
//! digest and encoding conventions of the claim set's schema, and decides
//! membership in the allow-list.
//!
//! Matching is set membership over exact string equality: no ordering
//! dependency, and for the dual-digest schema both fingerprints of one
//! entry must match — a partial match is a deny, never an allow.

use vstd::prelude::*;
use sha1::Digest;

use crate::claims::FingerprintList;
use crate::claims::ThumbprintBundleClaims;
use crate::claims::ThumbprintEntry;
use crate::codec::b64_encode_seq;
use crate::codec::hex_encode_seq;
use crate::codec::base64url_encode;
use crate::codec::hex_encode_upper;

verus! {

/// The SHA-1 digest of a byte sequence: 20 bytes, a function of the
/// input alone.
pub uninterp spec fn sha1_of(bytes: Seq<u8>) -> Seq<u8>;

/// The SHA-256 digest of a byte sequence: 32 bytes, a function of the
/// input alone.
pub uninterp spec fn sha256_of(bytes: Seq<u8>) -> Seq<u8>;

/// Relies on `sha1::Sha1` through the `Digest` trait: the 20-byte SHA-1
/// digest of the input, a function of the bytes alone.
#[verifier::external_body]
fn sha1_digest(bytes: &[u8]) -> (r: Vec<u8>)
    ensures
        r@ == sha1_of(bytes@),
        r@.len() == 20,
{
    sha1::Sha1::digest(bytes).to_vec()
}

/// Relies on `sha2::Sha256` through the `Digest` trait: the 32-byte
/// SHA-256 digest of the input, a function of the bytes alone.
#[verifier::external_body]
fn sha256_digest(bytes: &[u8]) -> (r: Vec<u8>)
    ensures
        r@ == sha256_of(bytes@),
        r@.len() == 32,
{
    sha2::Sha256::digest(bytes).to_vec()
}

/// The base64url SHA-1 fingerprint of a certificate's raw bytes.
pub fn compute_x5t_from_der(cert_der: &[u8]) -> (r: String)
    ensures
        r@ == b64_encode_seq(sha1_of(cert_der@)),
{
    let digest = sha1_digest(cert_der);
    base64url_encode(digest.as_slice())
}

/// The base64url SHA-256 fingerprint of a certificate's raw bytes.
pub fn compute_x5t_s256_from_der(cert_der: &[u8]) -> (r: String)
    ensures
        r@ == b64_encode_seq(sha256_of(cert_der@)),
{
    let digest = sha256_digest(cert_der);
    base64url_encode(digest.as_slice())
}

/// The uppercase hex SHA-1 thumbprint of a certificate's raw bytes.
pub fn compute_sha1_thumbprint_hex_from_der(cert_der: &[u8]) -> (r: String)
    ensures
        r@ == hex_encode_seq(sha1_of(cert_der@)),
{
    let digest = sha1_digest(cert_der);
    hex_encode_upper(digest.as_slice())
}

/// Whether an entry of the dual-digest schema matches both computed
/// fingerprints exactly.
pub open spec fn dual_entry_matches(e: ThumbprintEntry, x5t: Seq<char>, x5t_s256: Seq<char>) -> bool {
    e.x5t@ == x5t && e.x5t_s256@ == x5t_s256
}

/// Whether the claim set's allow-list holds the certificate with the
/// given raw bytes: some entry whose fingerprint fields all equal the
/// certificate's computed fingerprints, in the schema's own encoding.
pub open spec fn allowed_spec(claims: ThumbprintBundleClaims, cert_der: Seq<u8>) -> bool {
    match claims.thumbprints {
        FingerprintList::Dual(entries) => exists|i: int|
            0 <= i < entries@.len() && dual_entry_matches(
                #[trigger] entries@[i],
                b64_encode_seq(sha1_of(cert_der)),
                b64_encode_seq(sha256_of(cert_der)),
            ),
        FingerprintList::SingleHex(list) => exists|i: int|
            0 <= i < list@.len() && #[trigger] list@[i]@ == hex_encode_seq(sha1_of(cert_der)),
    }
}

/// Decide whether the certificate with the given raw bytes is on the
/// claim set's allow-list. For the dual-digest schema both the SHA-1 and
/// the SHA-256 fingerprint of one entry must match; for the single-digest
/// schema the SHA-1 hex thumbprint must match. No match is a plain
/// `false`, not an error.
pub fn is_certificate_allowed(cert_der: &[u8], claims: &ThumbprintBundleClaims) -> (allowed:
    bool)
    ensures
        allowed == allowed_spec(*claims, cert_der@),
{
    match &claims.thumbprints {
        FingerprintList::Dual(entries) => {
            let x5t = compute_x5t_from_der(cert_der);
            let x5t_s256 = compute_x5t_s256_from_der(cert_der);
            let mut i: usize = 0;
            while i < entries.len()
                invariant
                    i <= entries@.len(),
                    x5t@ == b64_encode_seq(sha1_of(cert_der@)),
                    x5t_s256@ == b64_encode_seq(sha256_of(cert_der@)),
                    claims.thumbprints matches FingerprintList::Dual(e) && e == entries,
                    forall|j: int|
                        0 <= j < i ==> !dual_entry_matches(
                            #[trigger] entries@[j],
                            x5t@,
                            x5t_s256@,
                        ),
                decreases entries@.len() - i,
            {
                let entry = &entries[i];
                if entry.x5t == x5t && entry.x5t_s256 == x5t_s256 {
                    return true;
                }
                i += 1;
            }
            false
        },
        FingerprintList::SingleHex(list) => {
            let thumbprint = compute_sha1_thumbprint_hex_from_der(cert_der);
            let mut i: usize = 0;
            while i < list.len()
                invariant
                    i <= list@.len(),
                    thumbprint@ == hex_encode_seq(sha1_of(cert_der@)),
                    claims.thumbprints matches FingerprintList::SingleHex(l) && l == list,
                    forall|j: int| 0 <= j < i ==> #[trigger] list@[j]@ != thumbprint@,
                decreases list@.len() - i,
            {
                if list[i] == thumbprint {
                    return true;
                }
                i += 1;
            }
            false
        },
    }
}

/// Law: a claim set with an empty allow-list denies every certificate.
pub proof fn lemma_empty_allow_list_denies(claims: ThumbprintBundleClaims, cert_der: Seq<u8>)
    requires
        claims.thumbprints.spec_entry_count() == 0,
    ensures
        !allowed_spec(claims, cert_der),
{
}

/// Law: in the dual-digest schema a SHA-1 match alone never allows — if
/// no entry's SHA-256 fingerprint matches the certificate, the
/// certificate is denied, whatever the SHA-1 fields hold.
pub proof fn lemma_partial_match_rejected(
    claims: ThumbprintBundleClaims,
    cert_der: Seq<u8>,
    entries: Vec<ThumbprintEntry>,
)
    requires
        claims.thumbprints == FingerprintList::Dual(entries),
        forall|i: int|
            0 <= i < entries@.len() ==> (#[trigger] entries@[i]).x5t_s256@ != b64_encode_seq(
                sha256_of(cert_der),
            ),
    ensures
        !allowed_spec(claims, cert_der),
{
}

} // verus!
