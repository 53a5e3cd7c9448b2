//! Adding data to an existing payment.

use crate::common::enums::{Version, Action};
use crate::common::traits::{LiqPayRequest};
use crate::signer::HashAlgorithm;
use vstd::prelude::*;

verus! {

/// Represents a request to add data to an existing payment.
#[derive(Debug)]
pub struct AddDataRequest {
    pub version: Version,
    pub public_key: String,
    pub action: Action,
    pub order_id: String,
    pub info: String,
}

impl LiqPayRequest for AddDataRequest {
    open spec fn spec_hash_algorithm() -> HashAlgorithm {
        HashAlgorithm::Sha3_256
    }

    open spec fn spec_version() -> Version {
        Version::Seven
    }

    proof fn lemma_algorithm_fits_version() {
    }

    fn hash_algorithm() -> (r: HashAlgorithm) {
        HashAlgorithm::Sha3_256
    }
}

impl AddDataRequest {
    /// Constructs a new request to add data to an existing payment.
    pub fn new(public_key: String, order_id: String, info: String) -> (r: Self)
        ensures
            r.version == Version::Seven,
            r.public_key == public_key,
            r.action == Action::Data,
            r.order_id == order_id,
            r.info == info,
    {
        Self {
            version: Version::Seven,
            public_key,
            action: Action::Data,
            order_id,
            info,
        }
    }
}

}
