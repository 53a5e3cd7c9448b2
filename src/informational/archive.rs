//! The archive of received payments.

use crate::common::enums::{Version, Action};
use crate::common::traits::{LiqPayRequest};
use crate::signer::HashAlgorithm;
use crate::informational::common::{ResponseFormat};
use vstd::prelude::*;

verus! {

/// Represents a request to get an archive of received payments.
#[derive(Debug)]
pub struct ArchiveRequest {
    pub version: Version,
    pub public_key: String,
    pub action: Action,
    pub date_from: String,
    pub date_to: String,
    pub response_format: ResponseFormat,
}

impl LiqPayRequest for ArchiveRequest {
    open spec fn spec_hash_algorithm() -> HashAlgorithm {
        HashAlgorithm::Sha3_256
    }

    open spec fn spec_version() -> Version {
        Version::Seven
    }

    proof fn lemma_algorithm_fits_version() {
    }

    fn hash_algorithm() -> (r: HashAlgorithm) {
        HashAlgorithm::Sha3_256
    }
}

impl ArchiveRequest {
    /// Constructs a new request to get an archive of received payments.
    pub fn new(public_key: String, date_from: String, date_to: String) -> (r: Self)
        ensures
            r.version == Version::Seven,
            r.public_key == public_key,
            r.action == Action::Reports,
            r.date_from == date_from,
            r.date_to == date_to,
            r.response_format == ResponseFormat::Json,
    {
        Self {
            version: Version::Seven,
            public_key,
            action: Action::Reports,
            date_from,
            date_to,
            response_format: ResponseFormat::Json,
        }
    }
}

/// Represents an operation result.
#[derive(Clone, Copy, Debug, PartialEq, Eq, Structural)]
pub enum Result {
    Success,
    Error,
}

}
