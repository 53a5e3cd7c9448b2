//! One-time password confirmation.

use crate::common::enums::{Version, Action};
use crate::common::traits::{LiqPayRequest};
use crate::signer::HashAlgorithm;
use vstd::prelude::*;

verus! {

/// Represents a request to confirm an operation with a one-time password.
#[derive(Debug)]
pub struct OtpRequest {
    pub version: Version,
    pub action: Action,
    pub public_key: String,
    pub otp: String,
    pub token: String,
}

impl LiqPayRequest for OtpRequest {
    open spec fn spec_hash_algorithm() -> HashAlgorithm {
        HashAlgorithm::Sha3_256
    }

    open spec fn spec_version() -> Version {
        Version::Seven
    }

    proof fn lemma_algorithm_fits_version() {
    }

    fn hash_algorithm() -> (r: HashAlgorithm) {
        HashAlgorithm::Sha3_256
    }
}

impl OtpRequest {
    /// Constructs a new request to confirm an operation with a one-time password.
    pub fn new(public_key: String, otp: String, token: String) -> (r: Self)
        ensures
            r.version == Version::Seven,
            r.action == Action::Confirm,
            r.public_key == public_key,
            r.otp == otp,
            r.token == token,
    {
        Self {
            version: Version::Seven,
            action: Action::Confirm,
            public_key,
            otp,
            token,
        }
    }
}

}
