// The encoding utility: round trips, agreement with the reference
// codecs, and rejection of malformed input.

use base64::Engine;
use thumbprint_bundle::{
    base64url_decode, base64url_encode, hex_decode, hex_encode_upper, hex_to_x5t_s256,
    windows_thumbprint_hex_to_x5t, x5t_s256_to_hex, x5t_to_windows_thumbprint_hex, EncodingError,
};

fn sample_inputs() -> Vec<Vec<u8>> {
    let mut inputs = vec![
        vec![],
        vec![0],
        vec![255],
        vec![1, 2],
        vec![0xde, 0xad, 0xbe],
        vec![0xde, 0xad, 0xbe, 0xef],
        b"hello world".to_vec(),
        (0u8..=255).collect(),
    ];
    inputs.push((0u8..20).collect()); // SHA-1 digest length
    inputs.push((0u8..32).collect()); // SHA-256 digest length
    inputs
}

#[test]
fn base64url_round_trip_on_samples() {
    for bytes in sample_inputs() {
        let encoded = base64url_encode(&bytes);
        let decoded = base64url_decode(&encoded).unwrap();
        assert_eq!(decoded, bytes);
    }
}

#[test]
fn hex_round_trip_on_samples() {
    for bytes in sample_inputs() {
        let encoded = hex_encode_upper(&bytes);
        let decoded = hex_decode(&encoded).unwrap();
        assert_eq!(decoded, bytes);
    }
}

#[test]
fn base64url_encode_agrees_with_reference_codec() {
    let engine = base64::engine::general_purpose::URL_SAFE_NO_PAD;
    for bytes in sample_inputs() {
        assert_eq!(base64url_encode(&bytes), engine.encode(&bytes));
    }
}

#[test]
fn base64url_decode_agrees_with_reference_codec() {
    let engine = base64::engine::general_purpose::URL_SAFE_NO_PAD;
    for input in ["", "AA", "AQ", "AQAB", "SGVsbG8", "_-9hQQ", "0123abcXYZ-_"] {
        assert_eq!(
            base64url_decode(input).unwrap(),
            engine.decode(input).unwrap()
        );
    }
}

#[test]
fn hex_encode_agrees_with_reference_codec() {
    for bytes in sample_inputs() {
        assert_eq!(hex_encode_upper(&bytes), hex::encode_upper(&bytes));
    }
}

#[test]
fn base64url_encode_exact_values() {
    assert_eq!(base64url_encode(&[]), "");
    assert_eq!(base64url_encode(&[0]), "AA");
    assert_eq!(base64url_encode(&[1]), "AQ");
    assert_eq!(base64url_encode(&[1, 0, 1]), "AQAB");
    assert_eq!(base64url_encode(b"Hello"), "SGVsbG8");
    assert_eq!(base64url_encode(&[0xff, 0xef, 0x61, 0x41]), "_-9hQQ");
}

#[test]
fn hex_encode_exact_values() {
    assert_eq!(hex_encode_upper(&[]), "");
    assert_eq!(hex_encode_upper(&[0x0a, 0x1b]), "0A1B");
    assert_eq!(hex_encode_upper(&[0xde, 0xad, 0xbe, 0xef]), "DEADBEEF");
}

#[test]
fn base64url_decode_rejects_malformed_input() {
    // Length 1 mod 4.
    assert_eq!(
        base64url_decode("A"),
        Err(EncodingError::InvalidBase64UrlData)
    );
    assert_eq!(
        base64url_decode("AAAAB"),
        Err(EncodingError::InvalidBase64UrlData)
    );
    // Characters outside the alphabet: padding, plus, slash.
    assert_eq!(
        base64url_decode("AQ=="),
        Err(EncodingError::InvalidBase64UrlData)
    );
    assert_eq!(
        base64url_decode("a+b/"),
        Err(EncodingError::InvalidBase64UrlData)
    );
    // Nonzero trailing bits: 'B' is 1, so "AB" is no canonical encoding.
    assert_eq!(
        base64url_decode("AB"),
        Err(EncodingError::InvalidBase64UrlData)
    );
    assert_eq!(
        base64url_decode("AAB"),
        Err(EncodingError::InvalidBase64UrlData)
    );
}

#[test]
fn hex_decode_rejects_malformed_input() {
    // Odd length after stripping separators.
    assert_eq!(hex_decode("ABC"), Err(EncodingError::InvalidHexData));
    assert_eq!(hex_decode("A:BC"), Err(EncodingError::InvalidHexData));
    // Not hex digits.
    assert_eq!(hex_decode("GG"), Err(EncodingError::InvalidHexData));
    assert_eq!(hex_decode("0x"), Err(EncodingError::InvalidHexData));
}

#[test]
fn hex_decode_strips_separators_and_accepts_lowercase() {
    assert_eq!(hex_decode("DE:AD BE:EF").unwrap(), vec![0xde, 0xad, 0xbe, 0xef]);
    assert_eq!(hex_decode("deadbeef").unwrap(), vec![0xde, 0xad, 0xbe, 0xef]);
    assert_eq!(hex_decode("").unwrap(), Vec::<u8>::new());
}

#[test]
fn x5t_hex_conversions_are_lossless() {
    let x5t = "AQAB";
    let hex_form = x5t_to_windows_thumbprint_hex(x5t).unwrap();
    assert_eq!(hex_form, "010001");
    assert_eq!(windows_thumbprint_hex_to_x5t(&hex_form).unwrap(), x5t);

    // A realistic SHA-1-sized fingerprint.
    let digest: Vec<u8> = (100u8..120).collect();
    let fingerprint = base64url_encode(&digest);
    let hex_form = x5t_to_windows_thumbprint_hex(&fingerprint).unwrap();
    assert_eq!(hex_form, hex_encode_upper(&digest));
    assert_eq!(windows_thumbprint_hex_to_x5t(&hex_form).unwrap(), fingerprint);

    // Windows-style separated, lowercase input converts to the same
    // fingerprint.
    assert_eq!(windows_thumbprint_hex_to_x5t("01:00:01").unwrap(), "AQAB");
    assert_eq!(windows_thumbprint_hex_to_x5t("01 00 01").unwrap(), "AQAB");
}

#[test]
fn x5t_s256_hex_conversions_are_lossless() {
    let digest: Vec<u8> = (0u8..32).collect();
    let fingerprint = base64url_encode(&digest);
    let hex_form = x5t_s256_to_hex(&fingerprint).unwrap();
    assert_eq!(hex_form, hex_encode_upper(&digest));
    assert_eq!(hex_to_x5t_s256(&hex_form).unwrap(), fingerprint);
}

#[test]
fn conversion_errors_carry_the_encoding_error() {
    assert_eq!(
        x5t_to_windows_thumbprint_hex("not base64url!"),
        Err(EncodingError::InvalidBase64UrlData)
    );
    assert_eq!(
        x5t_s256_to_hex("=="),
        Err(EncodingError::InvalidBase64UrlData)
    );
    assert_eq!(
        windows_thumbprint_hex_to_x5t("XYZ"),
        Err(EncodingError::InvalidHexData)
    );
    assert_eq!(hex_to_x5t_s256("123"), Err(EncodingError::InvalidHexData));
}
