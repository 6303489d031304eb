// The allow-list matcher on both schema variants, with the digest
// computations cross-checked against the digest crates themselves.

use sha1::Digest;
use thumbprint_bundle::{
    base64url_encode, compute_sha1_thumbprint_hex_from_der, compute_x5t_from_der,
    compute_x5t_s256_from_der, hex_encode_upper, is_certificate_allowed, FingerprintList,
    ThumbprintBundleClaims, ThumbprintEntry,
};

fn claims_with(thumbprints: FingerprintList) -> ThumbprintBundleClaims {
    ThumbprintBundleClaims {
        iss: "issuer".to_string(),
        aud: "audience".to_string(),
        iat: 1_000_000,
        nbf: 1_000_000,
        exp: 2_000_000,
        ver: "1".to_string(),
        thumbprints,
    }
}

fn dual_entry_for(cert: &[u8]) -> ThumbprintEntry {
    ThumbprintEntry {
        x5t: compute_x5t_from_der(cert),
        x5t_s256: compute_x5t_s256_from_der(cert),
    }
}

#[test]
fn computed_digests_agree_with_digest_crates() {
    let cert = b"certificate bytes under test";
    let sha1_digest = sha1::Sha1::digest(cert).to_vec();
    let sha256_digest = sha2::Sha256::digest(cert).to_vec();

    assert_eq!(compute_x5t_from_der(cert), base64url_encode(&sha1_digest));
    assert_eq!(
        compute_x5t_s256_from_der(cert),
        base64url_encode(&sha256_digest)
    );
    assert_eq!(
        compute_sha1_thumbprint_hex_from_der(cert),
        hex_encode_upper(&sha1_digest)
    );
    // Digest lengths of the two algorithms.
    assert_eq!(sha1_digest.len(), 20);
    assert_eq!(sha256_digest.len(), 32);
    // A known SHA-1 test vector: the empty input.
    assert_eq!(
        compute_sha1_thumbprint_hex_from_der(&[]),
        "DA39A3EE5E6B4B0D3255BFEF95601890AFD80709"
    );
}

#[test]
fn dual_digest_matcher_allows_listed_and_denies_unlisted() {
    let cert_a = b"first allowed certificate".to_vec();
    let cert_b = b"second allowed certificate".to_vec();
    let cert_other = b"some unrelated certificate".to_vec();

    let claims = claims_with(FingerprintList::Dual(vec![
        dual_entry_for(&cert_a),
        dual_entry_for(&cert_b),
    ]));

    assert!(is_certificate_allowed(&cert_a, &claims));
    assert!(is_certificate_allowed(&cert_b, &claims));
    assert!(!is_certificate_allowed(&cert_other, &claims));
}

#[test]
fn single_digest_matcher_allows_matching_sha1_hex() {
    let cert = b"certificate in the hex schema".to_vec();
    let other = b"certificate left off the list".to_vec();

    let listed = compute_sha1_thumbprint_hex_from_der(&cert);
    assert_eq!(listed.len(), 40);
    let claims = claims_with(FingerprintList::SingleHex(vec![listed]));

    assert!(is_certificate_allowed(&cert, &claims));
    assert!(!is_certificate_allowed(&other, &claims));
}

#[test]
fn partial_match_is_not_allowed() {
    let cert = b"certificate with colliding sha1 entry".to_vec();
    let other = b"a different certificate".to_vec();

    // A fabricated entry: SHA-1 fingerprint of the certificate, SHA-256
    // fingerprint of another one.
    let fabricated = ThumbprintEntry {
        x5t: compute_x5t_from_der(&cert),
        x5t_s256: compute_x5t_s256_from_der(&other),
    };
    let claims = claims_with(FingerprintList::Dual(vec![fabricated]));
    assert!(!is_certificate_allowed(&cert, &claims));

    // The mirror image: SHA-256 matches, SHA-1 does not.
    let fabricated = ThumbprintEntry {
        x5t: compute_x5t_from_der(&other),
        x5t_s256: compute_x5t_s256_from_der(&cert),
    };
    let claims = claims_with(FingerprintList::Dual(vec![fabricated]));
    assert!(!is_certificate_allowed(&cert, &claims));
}

#[test]
fn empty_allow_list_denies_every_certificate() {
    let certs: Vec<Vec<u8>> = vec![
        b"".to_vec(),
        b"any certificate at all".to_vec(),
        (0u8..=255).collect(),
    ];

    let dual = claims_with(FingerprintList::Dual(Vec::new()));
    let single = claims_with(FingerprintList::SingleHex(Vec::new()));
    assert_eq!(dual.entry_count(), 0);
    assert_eq!(single.entry_count(), 0);

    for cert in &certs {
        assert!(!is_certificate_allowed(cert, &dual));
        assert!(!is_certificate_allowed(cert, &single));
    }
}

#[test]
fn matching_is_order_independent() {
    let cert = b"certificate listed last".to_vec();
    let first = b"certificate listed first".to_vec();

    let claims = claims_with(FingerprintList::Dual(vec![
        dual_entry_for(&first),
        dual_entry_for(&cert),
    ]));
    let reversed = claims_with(FingerprintList::Dual(vec![
        dual_entry_for(&cert),
        dual_entry_for(&first),
    ]));

    assert!(is_certificate_allowed(&cert, &claims));
    assert!(is_certificate_allowed(&cert, &reversed));
}
