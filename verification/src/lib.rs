//! Verification of signed code-signing thumbprint bundles.
//!
//! A bundle is a signed token whose payload carries an allow-list of
//! certificate fingerprints. This crate verifies such tokens against an
//! RSA public key and a strict claim policy, computes certificate
//! fingerprints in the digest and encoding conventions the bundle uses,
//! and decides whether a given certificate is on the allow-list.

use vstd::prelude::*;

pub mod codec;
pub mod claims;
pub mod matcher;
pub mod token;

pub use codec::base64url_encode;
pub use codec::base64url_decode;
pub use codec::hex_encode_upper;
pub use codec::hex_decode;
pub use codec::x5t_to_windows_thumbprint_hex;
pub use codec::windows_thumbprint_hex_to_x5t;
pub use codec::x5t_s256_to_hex;
pub use codec::hex_to_x5t_s256;
pub use codec::EncodingError;
pub use claims::ThumbprintBundleClaims;
pub use claims::ThumbprintEntry;
pub use claims::FingerprintList;
pub use matcher::is_certificate_allowed;
pub use matcher::compute_x5t_from_der;
pub use matcher::compute_x5t_s256_from_der;
pub use matcher::compute_sha1_thumbprint_hex_from_der;
pub use token::verify_bundle;
pub use token::verify_bundle_at;
pub use token::validate_claims;
pub use token::VerificationFailure;
pub use token::DEFAULT_ISSUER;
pub use token::DEFAULT_AUDIENCE;

