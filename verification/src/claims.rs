//! The authenticated payload of a thumbprint bundle: issuer, audience,
//! validity window, version tag, and the allow-list of certificate
//! fingerprint entries.
//!
//! Two schema versions of the entry list exist and both are supported:
//! entries carrying a SHA-1 and a SHA-256 fingerprint in base64url, and
//! entries carrying a single SHA-1 thumbprint in uppercase hex. A claim
//! set is immutable once produced by verification; it is only read.

use vstd::prelude::*;

verus! {

/// One allow-list entry of the dual-digest schema: the base64url SHA-1
/// and SHA-256 fingerprints of the same certificate, both unpadded.
#[derive(Clone, Debug)]
pub struct ThumbprintEntry {
    pub x5t: String,
    pub x5t_s256: String,
}

/// The fingerprint entries of a claim set, tagged by schema version.
#[derive(Clone, Debug)]
pub enum FingerprintList {
    /// Dual-digest schema: each entry pairs a base64url SHA-1 fingerprint
    /// with a base64url SHA-256 fingerprint.
    Dual(Vec<ThumbprintEntry>),
    /// Single-digest schema: each entry is one SHA-1 thumbprint in
    /// uppercase hex without separators.
    SingleHex(Vec<String>),
}

impl FingerprintList {
    /// The number of allow-list entries, whichever schema carries them.
    pub open spec fn spec_entry_count(self) -> nat {
        match self {
            FingerprintList::Dual(entries) => entries@.len(),
            FingerprintList::SingleHex(list) => list@.len(),
        }
    }

    /// The number of allow-list entries.
    pub fn entry_count(&self) -> (n: usize)
        ensures
            n == self.spec_entry_count(),
    {
        match self {
            FingerprintList::Dual(entries) => entries.len(),
            FingerprintList::SingleHex(list) => list.len(),
        }
    }
}

/// The authenticated claim set of a verified thumbprint bundle.
#[derive(Clone, Debug)]
pub struct ThumbprintBundleClaims {
    /// Issuer identity of the signer.
    pub iss: String,
    /// Audience identity of the intended consumer.
    pub aud: String,
    /// Issued-at, Unix seconds.
    pub iat: u64,
    /// Not-before, Unix seconds.
    pub nbf: u64,
    /// Expiry, Unix seconds.
    pub exp: u64,
    /// Opaque version tag of the bundle.
    pub ver: String,
    /// The allow-list of certificate fingerprints; may be empty, which
    /// denies every certificate.
    pub thumbprints: FingerprintList,
}

impl ThumbprintBundleClaims {
    /// The temporal validity window: `nbf <= now < exp`, zero clock-skew
    /// tolerance.
    pub open spec fn temporally_valid_at(self, now: u64) -> bool {
        self.nbf <= now < self.exp
    }

    /// The number of allow-list entries.
    pub fn entry_count(&self) -> (n: usize)
        ensures
            n == self.thumbprints.spec_entry_count(),
    {
        self.thumbprints.entry_count()
    }
}

} // verus!
