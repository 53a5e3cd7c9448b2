//! The status of a payment.

use crate::common::enums::{Version, Action, Status};
use crate::common::traits::{LiqPayRequest};
use crate::signer::HashAlgorithm;
use vstd::prelude::*;

verus! {

/// Represents a request to get a payment status.
#[derive(Debug)]
pub struct StatusRequest {
    pub version: Version,
    pub public_key: String,
    pub action: Action,
    pub order_id: String,
}

impl LiqPayRequest for StatusRequest {
    open spec fn spec_hash_algorithm() -> HashAlgorithm {
        HashAlgorithm::Sha3_256
    }

    open spec fn spec_version() -> Version {
        Version::Seven
    }

    proof fn lemma_algorithm_fits_version() {
    }

    fn hash_algorithm() -> (r: HashAlgorithm) {
        HashAlgorithm::Sha3_256
    }
}

impl StatusRequest {
    /// Constructs a new request to get a payment status.
    pub fn new(public_key: String, order_id: String) -> (r: Self)
        ensures
            r.version == Version::Seven,
            r.public_key == public_key,
            r.action == Action::Status,
            r.order_id == order_id,
    {
        Self {
            version: Version::Seven,
            public_key,
            action: Action::Status,
            order_id,
        }
    }
}

}
