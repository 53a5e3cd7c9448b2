//! Regular payments by subscription.

use crate::common::enums::{Version, Action};
use crate::common::traits::{LiqPayRequest};
use crate::signer::HashAlgorithm;
use vstd::prelude::*;

verus! {

/// How often a subscription charges.
#[derive(Clone, Copy, Debug, PartialEq, Eq, Structural)]
pub enum SubscribePeriodicity {
    Day,
    Week,
    Month,
    Year,
}

/// Represents a request to cancel a subscription.
#[derive(Debug)]
pub struct CancelSubscriptionRequest {
    pub version: Version,
    pub action: Action,
    pub public_key: String,
    pub order_id: String,
}

impl LiqPayRequest for CancelSubscriptionRequest {
    open spec fn spec_hash_algorithm() -> HashAlgorithm {
        HashAlgorithm::Sha3_256
    }

    open spec fn spec_version() -> Version {
        Version::Seven
    }

    proof fn lemma_algorithm_fits_version() {
    }

    fn hash_algorithm() -> (r: HashAlgorithm) {
        HashAlgorithm::Sha3_256
    }
}

impl CancelSubscriptionRequest {
    /// Constructs a new request to cancel the subscription of an order.
    pub fn new(public_key: String, order_id: String) -> (r: Self)
        ensures
            r.version == Version::Seven,
            r.action == Action::Unsubscribe,
            r.public_key == public_key,
            r.order_id == order_id,
    {
        Self {
            version: Version::Seven,
            action: Action::Unsubscribe,
            public_key,
            order_id,
        }
    }
}

}
