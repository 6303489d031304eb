//! The token verifier: validates a signed bundle token against an RSA
//! public key and a strict claim policy, and returns the authenticated
//! claim set or a definitive failure.
//!
//! The cryptographic work — PEM key parsing, token structure, and the
//! RSA-with-SHA256 signature — is done by the `jsonwebtoken` crate behind
//! trusted wrappers with signature checking only; every claim check
//! (required claims, temporal window, issuer, audience) is made here by
//! verified code with an exact contract.

use vstd::prelude::*;

use crate::claims::FingerprintList;
use crate::claims::ThumbprintBundleClaims;
use crate::claims::ThumbprintEntry;

verus! {

/// The issuer a bundle is expected to carry unless the caller chooses
/// another: the fixed vendor URL identifying the bundle producer.
pub const DEFAULT_ISSUER: &'static str = "https://devolutions.net/productinfo/codesign-thumbprints";

/// The audience a bundle is expected to carry unless the caller chooses
/// another: the fixed URN identifying update clients.
pub const DEFAULT_AUDIENCE: &'static str = "urn:devolutions:update-clients";

/// Why a bundle token failed verification.
#[derive(Clone, Copy, Debug, PartialEq, Eq, Structural)]
pub enum VerificationFailure {
    /// The public key input is not a recognizable RSA public key PEM.
    KeyParseError,
    /// The token is not a well-formed three-part signed structure, or its
    /// signature does not verify under the supplied key.
    SignatureError,
    /// A required claim is missing or malformed, the token is outside its
    /// validity window, or issuer or audience do not match expectations.
    ClaimPolicyError,
}

#[verifier::external_type_specification]
#[verifier::external_body]
pub struct ExJsonValue(serde_json::Value);

#[verifier::external_type_specification]
#[verifier::external_body]
pub struct ExDecodingKey(jsonwebtoken::DecodingKey);

#[verifier::external_type_specification]
#[verifier::external_body]
pub struct ExJwtError(jsonwebtoken::errors::Error);

/// Relies on `jsonwebtoken::DecodingKey::from_rsa_pem`: parses an RSA
/// public key from PEM text, failing on malformed input.
#[verifier::external_body]
fn parse_rsa_public_key(public_key_pem: &str) -> (r: Result<
    jsonwebtoken::DecodingKey,
    jsonwebtoken::errors::Error,
>) {
    jsonwebtoken::DecodingKey::from_rsa_pem(public_key_pem.as_bytes())
}

/// Relies on `jsonwebtoken::decode` restricted to RS256: returns the
/// token's payload only when the token is a well-formed three-part
/// structure whose signature verifies under the key. The crate's own
/// claim validations are switched off here; verified code makes every
/// claim check itself.
#[verifier::external_body]
fn decode_rs256_payload(token: &str, key: &jsonwebtoken::DecodingKey) -> (r: Result<
    serde_json::Value,
    jsonwebtoken::errors::Error,
>) {
    let mut validation = jsonwebtoken::Validation::new(jsonwebtoken::Algorithm::RS256);
    validation.validate_exp = false;
    validation.validate_nbf = false;
    validation.validate_aud = false;
    validation.required_spec_claims = std::collections::HashSet::new();
    jsonwebtoken::decode::<serde_json::Value>(token, key, &validation).map(|data| data.claims)
}

/// Relies on `serde_json::Value::get`: the value of the named field when
/// the value is a JSON object that has it.
#[verifier::external_body]
fn json_get<'a>(value: &'a serde_json::Value, key: &str) -> (r: Option<&'a serde_json::Value>) {
    value.get(key)
}

/// Relies on `serde_json::Value::as_str`: the content of a JSON string
/// value.
#[verifier::external_body]
fn json_as_string(value: &serde_json::Value) -> (r: Option<String>) {
    value.as_str().map(|s| s.to_string())
}

/// Relies on `serde_json::Value::as_u64`: the value of a JSON number that
/// is a non-negative integer fitting in `u64`.
#[verifier::external_body]
fn json_as_u64(value: &serde_json::Value) -> (r: Option<u64>) {
    value.as_u64()
}

/// Relies on `serde_json::Value::as_array`: the elements of a JSON array
/// value.
#[verifier::external_body]
fn json_as_array<'a>(value: &'a serde_json::Value) -> (r: Option<&'a Vec<serde_json::Value>>) {
    value.as_array()
}

/// Relies on `std::time::SystemTime::now` (read through `duration_since`
/// and `as_secs`): the wall clock as Unix seconds. Nothing is assumed of
/// the value.
#[verifier::external_body]
fn now_unix_seconds() -> u64 {
    match std::time::SystemTime::now().duration_since(std::time::UNIX_EPOCH) {
        Ok(elapsed) => elapsed.as_secs(),
        Err(_) => 0,
    }
}

/// Read the fingerprint entry list from the decoded payload items. The
/// schema version is chosen by structural inspection of the first item:
/// a string means single-digest hex entries, an object means dual-digest
/// entries. A mixed or otherwise malformed list is rejected.
fn parse_entry_list(items: &Vec<serde_json::Value>) -> (r: Result<
    FingerprintList,
    VerificationFailure,
>)
    ensures
        match r {
            Ok(list) => list.spec_entry_count() == items@.len(),
            Err(failure) => failure == VerificationFailure::ClaimPolicyError,
        },
{
    if items.len() == 0 {
        return Ok(FingerprintList::Dual(Vec::new()));
    }
    if json_as_string(&items[0]).is_some() {
        let mut list: Vec<String> = Vec::new();
        let mut i: usize = 0;
        while i < items.len()
            invariant
                i <= items@.len(),
                list@.len() == i,
            decreases items@.len() - i,
        {
            match json_as_string(&items[i]) {
                Some(thumbprint) => list.push(thumbprint),
                None => {
                    return Err(VerificationFailure::ClaimPolicyError);
                },
            }
            i += 1;
        }
        Ok(FingerprintList::SingleHex(list))
    } else {
        let mut entries: Vec<ThumbprintEntry> = Vec::new();
        let mut i: usize = 0;
        while i < items.len()
            invariant
                i <= items@.len(),
                entries@.len() == i,
            decreases items@.len() - i,
        {
            let x5t = match json_get(&items[i], "x5t") {
                Some(field) => match json_as_string(field) {
                    Some(s) => s,
                    None => {
                        return Err(VerificationFailure::ClaimPolicyError);
                    },
                },
                None => {
                    return Err(VerificationFailure::ClaimPolicyError);
                },
            };
            let x5t_s256 = match json_get(&items[i], "x5t#S256") {
                Some(field) => match json_as_string(field) {
                    Some(s) => s,
                    None => {
                        return Err(VerificationFailure::ClaimPolicyError);
                    },
                },
                None => {
                    return Err(VerificationFailure::ClaimPolicyError);
                },
            };
            entries.push(ThumbprintEntry { x5t, x5t_s256 });
            i += 1;
        }
        Ok(FingerprintList::Dual(entries))
    }
}

/// Assemble the claim set from the decoded payload. The required claims
/// — issuer, audience, issued-at, not-before, expiry — must each be
/// present with the right shape; the version tag and the fingerprint
/// list may be absent and default to empty. A present but malformed
/// fingerprint list is rejected, not defaulted.
fn parse_claims(payload: &serde_json::Value) -> (r: Result<
    ThumbprintBundleClaims,
    VerificationFailure,
>)
    ensures
        r is Err ==> r == Err::<ThumbprintBundleClaims, VerificationFailure>(
            VerificationFailure::ClaimPolicyError,
        ),
{
    let iss = match json_get(payload, "iss") {
        Some(field) => match json_as_string(field) {
            Some(s) => s,
            None => {
                return Err(VerificationFailure::ClaimPolicyError);
            },
        },
        None => {
            return Err(VerificationFailure::ClaimPolicyError);
        },
    };
    let aud = match json_get(payload, "aud") {
        Some(field) => match json_as_string(field) {
            Some(s) => s,
            None => {
                return Err(VerificationFailure::ClaimPolicyError);
            },
        },
        None => {
            return Err(VerificationFailure::ClaimPolicyError);
        },
    };
    let iat = match json_get(payload, "iat") {
        Some(field) => match json_as_u64(field) {
            Some(n) => n,
            None => {
                return Err(VerificationFailure::ClaimPolicyError);
            },
        },
        None => {
            return Err(VerificationFailure::ClaimPolicyError);
        },
    };
    let nbf = match json_get(payload, "nbf") {
        Some(field) => match json_as_u64(field) {
            Some(n) => n,
            None => {
                return Err(VerificationFailure::ClaimPolicyError);
            },
        },
        None => {
            return Err(VerificationFailure::ClaimPolicyError);
        },
    };
    let exp = match json_get(payload, "exp") {
        Some(field) => match json_as_u64(field) {
            Some(n) => n,
            None => {
                return Err(VerificationFailure::ClaimPolicyError);
            },
        },
        None => {
            return Err(VerificationFailure::ClaimPolicyError);
        },
    };
    let ver = match json_get(payload, "ver") {
        Some(field) => match json_as_string(field) {
            Some(s) => s,
            None => {
                return Err(VerificationFailure::ClaimPolicyError);
            },
        },
        None => String::new(),
    };
    let thumbprints = match json_get(payload, "thumbprints") {
        Some(field) => match json_as_array(field) {
            Some(items) => match parse_entry_list(items) {
                Ok(list) => list,
                Err(failure) => {
                    return Err(failure);
                },
            },
            None => {
                return Err(VerificationFailure::ClaimPolicyError);
            },
        },
        None => FingerprintList::Dual(Vec::new()),
    };
    Ok(ThumbprintBundleClaims { iss, aud, iat, nbf, exp, ver, thumbprints })
}

/// The claim policy: issuer and audience equal the expected identities
/// exactly, and the time lies in the validity window, with zero
/// clock-skew tolerance.
pub open spec fn claim_policy_ok(
    claims: ThumbprintBundleClaims,
    now: u64,
    issuer: Seq<char>,
    audience: Seq<char>,
) -> bool {
    claims.iss@ == issuer && claims.aud@ == audience && claims.temporally_valid_at(now)
}

/// Check the claim policy of an already-authenticated claim set: exact
/// issuer and audience equality and the temporal window `nbf <= now <
/// exp`. Succeeds exactly when the policy holds; every violation is a
/// `ClaimPolicyError`.
pub fn validate_claims(
    claims: &ThumbprintBundleClaims,
    now: u64,
    issuer: &str,
    audience: &str,
) -> (r: Result<(), VerificationFailure>)
    ensures
        match r {
            Ok(_) => claim_policy_ok(*claims, now, issuer@, audience@),
            Err(failure) => !claim_policy_ok(*claims, now, issuer@, audience@) && failure
                == VerificationFailure::ClaimPolicyError,
        },
{
    if !(claims.nbf <= now && now < claims.exp) {
        return Err(VerificationFailure::ClaimPolicyError);
    }
    if !(claims.iss == issuer.to_owned()) {
        return Err(VerificationFailure::ClaimPolicyError);
    }
    if !(claims.aud == audience.to_owned()) {
        return Err(VerificationFailure::ClaimPolicyError);
    }
    Ok(())
}

/// Verify a bundle token at a given time: RS256 signature under the PEM
/// public key, then the full claim policy against the expected issuer
/// and audience at time `now`. On success the returned claim set is the
/// verified payload's and meets the policy.
pub fn verify_bundle_at(
    jwt: &str,
    public_key_pem: &str,
    issuer: &str,
    audience: &str,
    now: u64,
) -> (r: Result<ThumbprintBundleClaims, VerificationFailure>)
    ensures
        match r {
            Ok(claims) => claim_policy_ok(claims, now, issuer@, audience@),
            Err(_) => true,
        },
{
    let key = match parse_rsa_public_key(public_key_pem) {
        Ok(key) => key,
        Err(_) => {
            return Err(VerificationFailure::KeyParseError);
        },
    };
    let payload = match decode_rs256_payload(jwt, &key) {
        Ok(payload) => payload,
        Err(_) => {
            return Err(VerificationFailure::SignatureError);
        },
    };
    let claims = match parse_claims(&payload) {
        Ok(claims) => claims,
        Err(failure) => {
            return Err(failure);
        },
    };
    match validate_claims(&claims, now, issuer, audience) {
        Ok(_) => Ok(claims),
        Err(failure) => Err(failure),
    }
}

/// Verify a bundle token against the wall clock: the claim policy is
/// checked at the current Unix time. On success the returned claim set
/// carries exactly the expected issuer and audience.
pub fn verify_bundle(jwt: &str, public_key_pem: &str, issuer: &str, audience: &str) -> (r: Result<
    ThumbprintBundleClaims,
    VerificationFailure,
>)
    ensures
        match r {
            Ok(claims) => claims.iss@ == issuer@ && claims.aud@ == audience@,
            Err(_) => true,
        },
{
    let now = now_unix_seconds();
    verify_bundle_at(jwt, public_key_pem, issuer, audience, now)
}

} // verus!
